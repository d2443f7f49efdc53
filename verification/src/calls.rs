//! Putting tool calls together from the pieces in which a backend sends them.
use crate::json::{Json, JsonView};
use crate::lists::owned;
use crate::text::{opt_view, same, views};
use crate::wire::{
    OpenAIMessageToolCall, OpenAIMessageToolCallView, OpenAIToolCallDelta, OpenAIToolCallDeltaView,
};
use vstd::prelude::*;

verus! {

// ---------------------------------------------------------------------------------------------
// A tool call, and a list of them by index
// ---------------------------------------------------------------------------------------------
/// What is known of a tool call so far.
#[derive(Debug)]
pub struct ToolCallAccumulator {
    pub id: Option<String>,
    pub kind: Option<String>,
    pub name: Option<String>,
    pub arguments: String,
    /// The identifier of the output item that the call belongs to.
    pub response_item_id: Option<String>,
}

/// The model of [`ToolCallAccumulator`].
#[verifier::ext_equal]
pub struct ToolCallAccumulatorView {
    pub id: Option<Seq<char>>,
    pub kind: Option<Seq<char>>,
    pub name: Option<Seq<char>>,
    pub arguments: Seq<char>,
    pub response_item_id: Option<Seq<char>>,
}

impl View for ToolCallAccumulator {
    type V = ToolCallAccumulatorView;

    open spec fn view(&self) -> ToolCallAccumulatorView {
        ToolCallAccumulatorView {
            id: opt_view(self.id),
            kind: opt_view(self.kind),
            name: opt_view(self.name),
            arguments: self.arguments@,
            response_item_id: opt_view(self.response_item_id),
        }
    }
}

/// A tool call of which nothing is known yet.
pub open spec fn no_call() -> ToolCallAccumulatorView {
    ToolCallAccumulatorView {
        id: None,
        kind: None,
        name: None,
        arguments: Seq::empty(),
        response_item_id: None,
    }
}

/// The number of leading calls that stand before the call of that index.
pub open spec fn slot(calls: Seq<(usize, ToolCallAccumulatorView)>, index: usize) -> int
    decreases calls.len(),
{
    if calls.len() == 0 || calls.last().0 < index {
        calls.len() as int
    } else {
        slot(calls.drop_last(), index)
    }
}

/// Whether there is a call of that index.
pub open spec fn has_call(calls: Seq<(usize, ToolCallAccumulatorView)>, index: usize) -> bool {
    slot(calls, index) < calls.len() && calls[slot(calls, index)].0 == index
}

/// The call of that index; where there is none, one of which nothing is known.
pub open spec fn call_at(
    calls: Seq<(usize, ToolCallAccumulatorView)>,
    index: usize,
) -> ToolCallAccumulatorView {
    if has_call(calls, index) {
        calls[slot(calls, index)].1
    } else {
        no_call()
    }
}

/// The calls with `call` as the one of that index.
pub open spec fn put_call(
    calls: Seq<(usize, ToolCallAccumulatorView)>,
    index: usize,
    call: ToolCallAccumulatorView,
) -> Seq<(usize, ToolCallAccumulatorView)> {
    if has_call(calls, index) {
        calls.update(slot(calls, index), (index, call))
    } else {
        calls.insert(slot(calls, index), (index, call))
    }
}

/// Whether the calls stand in the order of their indices, each index once.
pub open spec fn increasing(calls: Seq<(usize, ToolCallAccumulatorView)>) -> bool {
    forall|i: int, j: int|
        0 <= i < j < calls.len() ==> (#[trigger] calls[i]).0 < (#[trigger] calls[j]).0
}

/// A slot has the smaller indices before it.
proof fn lemma_slot(calls: Seq<(usize, ToolCallAccumulatorView)>, index: usize)
    ensures
        0 <= slot(calls, index) <= calls.len(),
        slot(calls, index) > 0 ==> calls[slot(calls, index) - 1].0 < index,
        forall|i: int| slot(calls, index) <= i < calls.len() ==> (#[trigger] calls[i]).0 >= index,
    decreases calls.len(),
{
    if calls.len() == 0 || calls.last().0 < index {
    } else {
        lemma_slot(calls.drop_last(), index);
        assert forall|i: int| slot(calls, index) <= i < calls.len() implies (
        #[trigger] calls[i]).0 >= index by {
            if i < calls.len() - 1 {
                assert(calls.drop_last()[i].0 >= index);
            }
        }
    }
}

/// Putting a call keeps the order of the indices.
pub proof fn lemma_put_keeps_order(
    calls: Seq<(usize, ToolCallAccumulatorView)>,
    index: usize,
    call: ToolCallAccumulatorView,
)
    requires
        increasing(calls),
    ensures
        increasing(put_call(calls, index, call)),
{
    lemma_slot(calls, index);
    let k = slot(calls, index);
    let put = put_call(calls, index, call);
    assert forall|i: int, j: int| 0 <= i < j < put.len() implies (#[trigger] put[i]).0 < (
    #[trigger] put[j]).0 by {
        if !has_call(calls, index) {
            let a = if i < k {
                i
            } else {
                i - 1
            };
            let b = if j < k {
                j
            } else {
                j - 1
            };
            if i != k && j != k {
                assert(calls[a].0 < calls[b].0);
            } else if i == k {
                assert(calls[b].0 >= index);
            } else {
                assert(a < k - 1 ==> calls[a].0 < calls[k - 1].0);
            }
        } else {
            assert(calls[i].0 < calls[j].0);
        }
    }
}

/// The call that was put is the one found at its index, and the calls at other indices stay.
pub proof fn lemma_put_reads_back(
    calls: Seq<(usize, ToolCallAccumulatorView)>,
    index: usize,
    call: ToolCallAccumulatorView,
    other: usize,
)
    requires
        increasing(calls),
    ensures
        call_at(put_call(calls, index, call), index) == call,
        has_call(put_call(calls, index, call), index),
        other != index ==> call_at(put_call(calls, index, call), other) == call_at(calls, other),
        other != index ==> has_call(put_call(calls, index, call), other) == has_call(calls, other),
{
    let put = put_call(calls, index, call);
    lemma_put_keeps_order(calls, index, call);
    lemma_slot(calls, index);
    lemma_slot(calls, other);
    lemma_slot(put, index);
    lemma_slot(put, other);
    let k = slot(calls, index);
    assert(put[k] == (index, call));
    lemma_call_found(put, k);
    if has_call(calls, other) && other != index {
        let m = slot(calls, other);
        let n = if has_call(calls, index) || m < k {
            m
        } else {
            m + 1
        };
        assert(put[n] == calls[m]);
        lemma_call_found(put, n);
    }
    if has_call(put, other) && other != index {
        let n = slot(put, other);
        let m = if has_call(calls, index) || n < k {
            n
        } else {
            n - 1
        };
        assert(put[n] == calls[m]);
        lemma_call_found(calls, m);
    }
}

/// In an ordered list the slot of an index that occurs is where it occurs.
proof fn lemma_call_found(calls: Seq<(usize, ToolCallAccumulatorView)>, k: int)
    requires
        increasing(calls),
        0 <= k < calls.len(),
    ensures
        slot(calls, calls[k].0) == k,
{
    lemma_slot(calls, calls[k].0);
    let s = slot(calls, calls[k].0);
    if s < k {
        assert(calls[s].0 < calls[k].0);
    } else if s > k {
        assert(k < s - 1 ==> calls[k].0 < calls[s - 1].0);
    }
}

// ---------------------------------------------------------------------------------------------
// Pieces of chat completions
// ---------------------------------------------------------------------------------------------
/// A call with one more piece: what the piece names replaces what was known, and its arguments are
/// appended.
pub open spec fn extended_call(
    call: ToolCallAccumulatorView,
    delta: OpenAIToolCallDeltaView,
) -> ToolCallAccumulatorView {
    ToolCallAccumulatorView {
        id: if delta.id is Some {
            delta.id
        } else {
            call.id
        },
        kind: if delta.kind is Some {
            delta.kind
        } else {
            call.kind
        },
        name: match delta.function {
            Some(function) => if function.name is Some {
                function.name
            } else {
                call.name
            },
            None => call.name,
        },
        arguments: match delta.function {
            Some(function) => match function.arguments {
                Some(arguments) => call.arguments + arguments,
                None => call.arguments,
            },
            None => call.arguments,
        },
        response_item_id: call.response_item_id,
    }
}

/// The calls with one more piece.
pub open spec fn with_delta(
    calls: Seq<(usize, ToolCallAccumulatorView)>,
    delta: OpenAIToolCallDeltaView,
) -> Seq<(usize, ToolCallAccumulatorView)> {
    put_call(calls, delta.index, extended_call(call_at(calls, delta.index), delta))
}

/// The calls with more pieces.
pub open spec fn with_deltas(
    calls: Seq<(usize, ToolCallAccumulatorView)>,
    deltas: Seq<OpenAIToolCallDeltaView>,
) -> Seq<(usize, ToolCallAccumulatorView)>
    decreases deltas.len(),
{
    if deltas.len() == 0 {
        calls
    } else {
        with_delta(with_deltas(calls, deltas.drop_last()), deltas.last())
    }
}

/// It does not matter how the pieces are grouped into chunks.
pub proof fn lemma_deltas_in_chunks(
    calls: Seq<(usize, ToolCallAccumulatorView)>,
    first: Seq<OpenAIToolCallDeltaView>,
    second: Seq<OpenAIToolCallDeltaView>,
)
    ensures
        with_deltas(calls, first + second) == with_deltas(with_deltas(calls, first), second),
    decreases second.len(),
{
    if second.len() == 0 {
        assert(first + second == first);
    } else {
        assert((first + second).drop_last() == first + second.drop_last());
        lemma_deltas_in_chunks(calls, first, second.drop_last());
    }
}

/// The last identifier that pieces of the call of that index give.
pub open spec fn last_id(deltas: Seq<OpenAIToolCallDeltaView>, index: usize) -> Option<Seq<char>>
    decreases deltas.len(),
{
    if deltas.len() == 0 {
        None
    } else if deltas.last().index == index && deltas.last().id is Some {
        deltas.last().id
    } else {
        last_id(deltas.drop_last(), index)
    }
}

/// The last kind that pieces of the call of that index give.
pub open spec fn last_kind(deltas: Seq<OpenAIToolCallDeltaView>, index: usize) -> Option<Seq<char>>
    decreases deltas.len(),
{
    if deltas.len() == 0 {
        None
    } else if deltas.last().index == index && deltas.last().kind is Some {
        deltas.last().kind
    } else {
        last_kind(deltas.drop_last(), index)
    }
}

/// The last name that pieces of the call of that index give.
pub open spec fn last_name(deltas: Seq<OpenAIToolCallDeltaView>, index: usize) -> Option<Seq<char>>
    decreases deltas.len(),
{
    if deltas.len() == 0 {
        None
    } else {
        match deltas.last().function {
            Some(function) if deltas.last().index == index && function.name is Some => {
                function.name
            },
            _ => last_name(deltas.drop_last(), index),
        }
    }
}

/// The arguments that the pieces of the call of that index give, one after another.
pub open spec fn arguments_given(deltas: Seq<OpenAIToolCallDeltaView>, index: usize) -> Seq<char>
    decreases deltas.len(),
{
    if deltas.len() == 0 {
        Seq::empty()
    } else {
        let before = arguments_given(deltas.drop_last(), index);
        match deltas.last().function {
            Some(function) if deltas.last().index == index => match function.arguments {
                Some(arguments) => before + arguments,
                None => before,
            },
            _ => before,
        }
    }
}

/// Whether one of the pieces is of the call of that index.
pub open spec fn speak_of(deltas: Seq<OpenAIToolCallDeltaView>, index: usize) -> bool {
    exists|i: int| 0 <= i < deltas.len() && (#[trigger] deltas[i]).index == index
}

/// The call of an index with the pieces of that index: its identifier, kind and name are the last
/// ones given, and the arguments given follow those that it had.
pub open spec fn call_with_deltas(
    call: ToolCallAccumulatorView,
    deltas: Seq<OpenAIToolCallDeltaView>,
    index: usize,
) -> ToolCallAccumulatorView {
    ToolCallAccumulatorView {
        id: if last_id(deltas, index) is Some {
            last_id(deltas, index)
        } else {
            call.id
        },
        kind: if last_kind(deltas, index) is Some {
            last_kind(deltas, index)
        } else {
            call.kind
        },
        name: if last_name(deltas, index) is Some {
            last_name(deltas, index)
        } else {
            call.name
        },
        arguments: call.arguments + arguments_given(deltas, index),
        response_item_id: call.response_item_id,
    }
}

/// Pieces of calls keep the order of the indices.
pub proof fn lemma_deltas_keep_order(
    calls: Seq<(usize, ToolCallAccumulatorView)>,
    deltas: Seq<OpenAIToolCallDeltaView>,
)
    requires
        increasing(calls),
    ensures
        increasing(with_deltas(calls, deltas)),
    decreases deltas.len(),
{
    if deltas.len() > 0 {
        let before = with_deltas(calls, deltas.drop_last());
        let delta = deltas.last();
        lemma_deltas_keep_order(calls, deltas.drop_last());
        lemma_put_keeps_order(
            before,
            delta.index,
            extended_call(call_at(before, delta.index), delta),
        );
    }
}

/// Index by index, a call is what it was with the pieces of its index; calls that no piece speaks
/// of stay as they were.
pub proof fn lemma_deltas_by_index(
    calls: Seq<(usize, ToolCallAccumulatorView)>,
    deltas: Seq<OpenAIToolCallDeltaView>,
    index: usize,
)
    requires
        increasing(calls),
    ensures
        call_at(with_deltas(calls, deltas), index) == call_with_deltas(
            call_at(calls, index),
            deltas,
            index,
        ),
        has_call(with_deltas(calls, deltas), index) <==> has_call(calls, index) || speak_of(
            deltas,
            index,
        ),
        !speak_of(deltas, index) ==> call_at(with_deltas(calls, deltas), index) == call_at(
            calls,
            index,
        ),
    decreases deltas.len(),
{
    let old_call = call_at(calls, index);
    if deltas.len() == 0 {
        assert(call_with_deltas(old_call, deltas, index) =~= old_call);
    } else {
        let rest = deltas.drop_last();
        let before = with_deltas(calls, rest);
        let delta = deltas.last();
        lemma_deltas_by_index(calls, rest, index);
        lemma_deltas_keep_order(calls, rest);
        let call = extended_call(call_at(before, delta.index), delta);
        lemma_put_reads_back(before, delta.index, call, index);
        assert(call_at(with_deltas(calls, deltas), index) =~= call_with_deltas(
            old_call,
            deltas,
            index,
        ));
        if speak_of(rest, index) {
            let i = choose|i: int| 0 <= i < rest.len() && (#[trigger] rest[i]).index == index;
            assert(deltas[i].index == index);
        }
        if delta.index == index {
            assert(deltas[deltas.len() - 1].index == index);
        } else if speak_of(deltas, index) {
            let i = choose|i: int| 0 <= i < deltas.len() && (#[trigger] deltas[i]).index == index;
            assert(rest[i].index == index);
        }
    }
}

/// The call that a whole tool call gives.
pub open spec fn full_call(call: OpenAIMessageToolCallView) -> ToolCallAccumulatorView {
    ToolCallAccumulatorView {
        id: Some(call.id),
        kind: Some(call.kind),
        name: Some(call.function.name),
        arguments: call.function.arguments,
        response_item_id: None,
    }
}

/// The calls with whole tool calls at the first indices.
pub open spec fn with_full_calls(
    calls: Seq<(usize, ToolCallAccumulatorView)>,
    full: Seq<OpenAIMessageToolCallView>,
) -> Seq<(usize, ToolCallAccumulatorView)>
    decreases full.len(),
{
    if full.len() == 0 {
        calls
    } else {
        put_call(
            with_full_calls(calls, full.drop_last()),
            (full.len() - 1) as usize,
            full_call(full.last()),
        )
    }
}

// ---------------------------------------------------------------------------------------------
// Pieces of responses
// ---------------------------------------------------------------------------------------------
/// The index of the first call that belongs to an output item.
pub open spec fn index_of_item(
    calls: Seq<(usize, ToolCallAccumulatorView)>,
    item_id: Seq<char>,
) -> Option<usize>
    decreases calls.len(),
{
    if calls.len() == 0 {
        None
    } else {
        match index_of_item(calls.drop_last(), item_id) {
            Some(index) => Some(index),
            None => if calls.last().1.response_item_id == Some(item_id) {
                Some(calls.last().0)
            } else {
                None
            },
        }
    }
}

/// The index behind the last one.
pub open spec fn next_index(calls: Seq<(usize, ToolCallAccumulatorView)>) -> usize {
    if calls.len() == 0 || calls.last().0 == usize::MAX {
        0
    } else {
        (calls.last().0 + 1) as usize
    }
}

/// The index of the call that an event speaks of: the one that it gives; else that of the call of
/// its item; else a new one.
pub open spec fn response_index(
    calls: Seq<(usize, ToolCallAccumulatorView)>,
    output_index: Option<usize>,
    item_id: Option<Seq<char>>,
) -> usize {
    match (output_index, item_id) {
        (Some(index), _) => index,
        (None, Some(id)) => match index_of_item(calls, id) {
            Some(index) => index,
            None => next_index(calls),
        },
        (None, None) => next_index(calls),
    }
}

/// The call that an event speaks of, tied to the item of the event.
pub open spec fn response_call(
    calls: Seq<(usize, ToolCallAccumulatorView)>,
    output_index: Option<usize>,
    item_id: Option<Seq<char>>,
) -> ToolCallAccumulatorView {
    let call = call_at(calls, response_index(calls, output_index, item_id));
    if item_id is Some && (output_index is Some || index_of_item(calls, item_id->0) is None) {
        ToolCallAccumulatorView { response_item_id: item_id, ..call }
    } else {
        call
    }
}

/// The calls with more arguments for one of them.
pub open spec fn with_arguments_delta(
    calls: Seq<(usize, ToolCallAccumulatorView)>,
    output_index: Option<usize>,
    item_id: Option<Seq<char>>,
    delta: Seq<char>,
) -> Seq<(usize, ToolCallAccumulatorView)> {
    if delta.len() == 0 {
        calls
    } else {
        let call = response_call(calls, output_index, item_id);
        put_call(
            calls,
            response_index(calls, output_index, item_id),
            ToolCallAccumulatorView { arguments: call.arguments + delta, ..call },
        )
    }
}

/// The calls with the whole arguments of one of them.
pub open spec fn with_arguments(
    calls: Seq<(usize, ToolCallAccumulatorView)>,
    output_index: Option<usize>,
    item_id: Option<Seq<char>>,
    arguments: Seq<char>,
) -> Seq<(usize, ToolCallAccumulatorView)> {
    let call = response_call(calls, output_index, item_id);
    put_call(
        calls,
        response_index(calls, output_index, item_id),
        ToolCallAccumulatorView { arguments, ..call },
    )
}

/// The identifier of the call of an output item: its `call_id`, or else its `id`.
pub open spec fn item_call_id(item: JsonView) -> Option<Seq<char>> {
    let id = match item.get("call_id"@) {
        Some(call_id) => call_id.as_str(),
        None => item.get_str("id"@),
    };
    match id {
        Some(text) => if text.len() == 0 {
            None
        } else {
            Some(text)
        },
        None => None,
    }
}

/// The calls with what an output item says; an item that is no function call says nothing.
pub open spec fn with_output_item(
    calls: Seq<(usize, ToolCallAccumulatorView)>,
    output_index: Option<usize>,
    item: JsonView,
) -> Seq<(usize, ToolCallAccumulatorView)> {
    if item.get_str("type"@) != Some("function_call"@) {
        calls
    } else {
        let item_id = item.get_str("id"@);
        let call = response_call(calls, output_index, item_id);
        put_call(
            calls,
            response_index(calls, output_index, item_id),
            ToolCallAccumulatorView {
                id: if item_call_id(item) is Some {
                    item_call_id(item)
                } else {
                    call.id
                },
                kind: Some("function"@),
                name: if item.get_str("name"@) is Some {
                    item.get_str("name"@)
                } else {
                    call.name
                },
                arguments: match item.get_str("arguments"@) {
                    Some(arguments) => arguments,
                    None => call.arguments,
                },
                response_item_id: if item_id is Some {
                    item_id
                } else {
                    call.response_item_id
                },
            },
        )
    }
}

/// The calls with what output items say, the first of them at index 0.
pub open spec fn with_output_items(
    calls: Seq<(usize, ToolCallAccumulatorView)>,
    items: Seq<JsonView>,
) -> Seq<(usize, ToolCallAccumulatorView)>
    decreases items.len(),
{
    if items.len() == 0 {
        calls
    } else {
        with_output_item(
            with_output_items(calls, items.drop_last()),
            Some((items.len() - 1) as usize),
            items.last(),
        )
    }
}

/// The calls with what the output of a response says.
pub open spec fn with_response(
    calls: Seq<(usize, ToolCallAccumulatorView)>,
    response: JsonView,
) -> Seq<(usize, ToolCallAccumulatorView)> {
    match response.get_array("output"@) {
        Some(items) => with_output_items(calls, items),
        None => calls,
    }
}

// ---------------------------------------------------------------------------------------------
// The tool calls of an answer
// ---------------------------------------------------------------------------------------------
/// The models of calls with their indices.
pub open spec fn calls_view(calls: Seq<(usize, ToolCallAccumulator)>) -> Seq<
    (usize, ToolCallAccumulatorView),
> {
    Seq::new(calls.len(), |i: int| (calls[i].0, calls[i].1@))
}

/// Makes sure that there is a call of that index, and says where it stands.
fn open_slot(calls: &mut Vec<(usize, ToolCallAccumulator)>, index: usize) -> (k: usize)
    ensures
        k == slot(calls_view(old(calls)@), index),
        k < final(calls).len(),
        calls_view(final(calls)@) == put_call(
            calls_view(old(calls)@),
            index,
            call_at(calls_view(old(calls)@), index),
        ),
        final(calls)@[k as int].0 == index,
        final(calls)@[k as int].1@ == call_at(calls_view(old(calls)@), index),
{
    let ghost before = calls_view(calls@);
    let mut k: usize = calls.len();
    assert(before.take(k as int) == before);
    while k > 0 && calls[k - 1].0 >= index
        invariant
            k <= calls.len(),
            calls_view(calls@) == before,
            slot(before.take(k as int), index) == slot(before, index),
        decreases k,
    {
        assert(before.take(k as int).drop_last() == before.take(k - 1));
        k -= 1;
    }
    proof {
        lemma_slot(before, index);
    }
    if k == calls.len() || calls[k].0 != index {
        let call = ToolCallAccumulator {
            id: None,
            kind: None,
            name: None,
            arguments: String::new(),
            response_item_id: None,
        };
        calls.insert(k, (index, call));
        assert(calls_view(calls@) =~= before.insert(k as int, (index, no_call())));
    } else {
        assert(calls_view(calls@) =~= before.update(k as int, before[k as int]));
    }
    k
}

/// Adds a piece of a tool call.
fn apply_delta(calls: &mut Vec<(usize, ToolCallAccumulator)>, delta: &OpenAIToolCallDelta)
    ensures
        calls_view(final(calls)@) == with_delta(calls_view(old(calls)@), delta@),
{
    let ghost before = calls_view(calls@);
    let k = open_slot(calls, delta.index);
    let ghost opened = calls_view(calls@);
    let call = &mut calls[k].1;
    match &delta.id {
        Some(id) => {
            call.id = Some(id.clone());
        },
        None => {},
    }
    match &delta.kind {
        Some(kind) => {
            call.kind = Some(kind.clone());
        },
        None => {},
    }
    match &delta.function {
        Some(function) => {
            match &function.name {
                Some(name) => {
                    call.name = Some(name.clone());
                },
                None => {},
            }
            match &function.arguments {
                Some(arguments) => {
                    call.arguments.append(arguments.as_str());
                },
                None => {},
            }
        },
        None => {},
    }
    proof {
        lemma_slot(before, delta.index);
        let updated = extended_call(call_at(before, delta.index), delta@);
        assert(calls@[k as int].1@ == updated);
        assert(calls_view(calls@) =~= opened.update(k as int, (delta.index, updated)));
        assert(calls_view(calls@) =~= with_delta(before, delta@));
    }
}

/// The index of the first call that belongs to an output item.
fn find_item(calls: &Vec<(usize, ToolCallAccumulator)>, item_id: &str) -> (r: Option<usize>)
    ensures
        r == index_of_item(calls_view(calls@), item_id@),
{
    let ghost all = calls_view(calls@);
    let mut i: usize = 0;
    while i < calls.len()
        invariant
            i <= calls.len(),
            all == calls_view(calls@),
            index_of_item(all.take(i as int), item_id@) is None,
        decreases calls.len() - i,
    {
        assert(all.take(i + 1).drop_last() == all.take(i as int));
        match &calls[i].1.response_item_id {
            Some(id) => {
                if same(id.as_str(), item_id) {
                    proof {
                        lemma_item_in_longer(all.take(i + 1), all.skip(i + 1), item_id@);
                        assert(all.take(i + 1) + all.skip(i + 1) == all);
                    }
                    return Some(calls[i].0);
                }
            },
            None => {},
        }
        i += 1;
    }
    assert(all.take(all.len() as int) == all);
    None
}

/// Makes sure that there is the call that an event speaks of, tied to the item of the event, and
/// says where it stands.
fn response_call_mut(
    calls: &mut Vec<(usize, ToolCallAccumulator)>,
    output_index: Option<usize>,
    item_id: Option<&str>,
) -> (k: usize)
    ensures
        k < final(calls).len(),
        k == slot(
            calls_view(old(calls)@),
            response_index(calls_view(old(calls)@), output_index, opt_view(item_id)),
        ),
        final(calls)@[k as int].0 == response_index(
            calls_view(old(calls)@),
            output_index,
            opt_view(item_id),
        ),
        final(calls)@[k as int].1@ == response_call(
            calls_view(old(calls)@),
            output_index,
            opt_view(item_id),
        ),
        calls_view(final(calls)@) == put_call(
            calls_view(old(calls)@),
            response_index(calls_view(old(calls)@), output_index, opt_view(item_id)),
            response_call(calls_view(old(calls)@), output_index, opt_view(item_id)),
        ),
{
    let ghost before = calls_view(calls@);
    let found: Option<usize> = match (output_index, item_id) {
        (Some(_), _) => None,
        (None, Some(id)) => find_item(calls, id),
        (None, None) => None,
    };
    let index: usize = match (output_index, found) {
        (Some(index), _) => index,
        (None, Some(index)) => index,
        (None, None) => {
            let n = calls.len();
            if n == 0 || calls[n - 1].0 == usize::MAX {
                0
            } else {
                calls[n - 1].0 + 1
            }
        },
    };
    assert(index == response_index(before, output_index, opt_view(item_id)));
    let k = open_slot(calls, index);
    let ghost opened = calls_view(calls@);
    if found.is_none() {
        match item_id {
            Some(id) => {
                let call = &mut calls[k].1;
                call.response_item_id = Some(id.to_owned());
            },
            None => {},
        }
    }
    proof {
        lemma_slot(before, index);
        let call = response_call(before, output_index, opt_view(item_id));
        assert(calls@[k as int].1@ == call);
        assert(calls_view(calls@) =~= opened.update(k as int, (index, call)));
        assert(calls_view(calls@) =~= put_call(before, index, call));
    }
    k
}

/// Takes what an output item says of a call.
fn apply_output_item(
    calls: &mut Vec<(usize, ToolCallAccumulator)>,
    output_index: Option<usize>,
    item: &Json,
)
    ensures
        calls_view(final(calls)@) == with_output_item(calls_view(old(calls)@), output_index, item@),
{
    match item.get_str("type") {
        Some(kind) => {
            if !same(kind, "function_call") {
                return;
            }
        },
        None => {
            return;
        },
    }
    let ghost before = calls_view(calls@);
    let item_id = item.get_str("id");
    let k = response_call_mut(calls, output_index, item_id);
    let ghost opened = calls_view(calls@);
    let call_id = match item.get("call_id") {
        Some(call_id) => call_id.as_str(),
        None => item_id,
    };
    let call_id = match call_id {
        Some(id) => if id.is_empty() {
            None
        } else {
            Some(id)
        },
        None => None,
    };
    let call = &mut calls[k].1;
    call.kind = Some("function".to_owned());
    if call_id.is_some() {
        call.id = owned(call_id);
    }
    if item_id.is_some() {
        call.response_item_id = owned(item_id);
    }
    match item.get_str("name") {
        Some(name) => {
            call.name = Some(name.to_owned());
        },
        None => {},
    }
    match item.get_str("arguments") {
        Some(arguments) => {
            call.arguments = arguments.to_owned();
        },
        None => {},
    }
    proof {
        let index = response_index(before, output_index, opt_view(item_id));
        lemma_slot(before, index);
        let put = with_output_item(before, output_index, item@);
        let call = put[k as int].1;
        assert(calls@[k as int].1@ == call);
        assert(calls_view(calls@) =~= opened.update(k as int, (index, call)));
        assert(calls_view(calls@) =~= put);
    }
}

/// The tool calls of an answer, as far as they are known, in the order of their indices. The model
/// is the list of the calls with their indices.
#[derive(Debug)]
pub struct ToolCallAccumulatorSet {
    calls: Vec<(usize, ToolCallAccumulator)>,
}

impl View for ToolCallAccumulatorSet {
    type V = Seq<(usize, ToolCallAccumulatorView)>;

    closed spec fn view(&self) -> Seq<(usize, ToolCallAccumulatorView)> {
        calls_view(self.calls@)
    }
}

impl Default for ToolCallAccumulatorSet {
    /// No tool calls.
    fn default() -> (r: Self)
        ensures
            r@ == Seq::<(usize, ToolCallAccumulatorView)>::empty(),
    {
        ToolCallAccumulatorSet { calls: Vec::new() }
    }
}

impl ToolCallAccumulatorSet {
    /// The calls stand in the order of their indices, each index once.
    #[verifier::type_invariant]
    spec fn well_formed(self) -> bool {
        increasing(self@)
    }

    /// Takes the calls out.
    fn take(&mut self) -> (calls: Vec<(usize, ToolCallAccumulator)>)
        ensures
            calls_view(calls@) == old(self)@,
            increasing(old(self)@),
    {
        proof {
            use_type_invariant(&*self);
        }
        let mut calls: Vec<(usize, ToolCallAccumulator)> = Vec::new();
        std::mem::swap(&mut calls, &mut self.calls);
        calls
    }

    /// Adds pieces of tool calls.
    pub fn apply_deltas(&mut self, deltas: Vec<OpenAIToolCallDelta>)
        ensures
            final(self)@ == with_deltas(old(self)@, views(deltas@)),
            increasing(old(self)@),
            increasing(final(self)@),
            forall|index: usize| #[trigger]
                call_at(final(self)@, index) == call_with_deltas(
                    call_at(old(self)@, index),
                    views(deltas@),
                    index,
                ),
    {
        let ghost before = self@;
        let ghost all = views(deltas@);
        let mut calls = self.take();
        let mut i: usize = 0;
        while i < deltas.len()
            invariant
                i <= deltas.len(),
                all == views(deltas@),
                calls_view(calls@) == with_deltas(before, all.take(i as int)),
            decreases deltas.len() - i,
        {
            assert(all.take(i + 1).drop_last() == all.take(i as int));
            apply_delta(&mut calls, &deltas[i]);
            i += 1;
        }
        assert(all.take(all.len() as int) == all);
        proof {
            lemma_deltas_keep_order(before, all);
            assert forall|index: usize| #[trigger]
                call_at(with_deltas(before, all), index) == call_with_deltas(
                    call_at(before, index),
                    all,
                    index,
                ) by {
                lemma_deltas_by_index(before, all, index);
            }
        }
        self.calls = calls;
    }

    /// Takes whole tool calls.
    pub fn apply_full_calls(&mut self, calls: Vec<OpenAIMessageToolCall>)
        ensures
            final(self)@ == with_full_calls(old(self)@, views(calls@)),
            increasing(old(self)@),
            increasing(final(self)@),
    {
        let ghost start = self@;
        let ghost all = views(calls@);
        let mut kept = self.take();
        let mut i: usize = 0;
        while i < calls.len()
            invariant
                i <= calls.len(),
                all == views(calls@),
                calls_view(kept@) == with_full_calls(start, all.take(i as int)),
                increasing(calls_view(kept@)),
            decreases calls.len() - i,
        {
            assert(all.take(i + 1).drop_last() == all.take(i as int));
            let ghost before = calls_view(kept@);
            let k = open_slot(&mut kept, i);
            let ghost opened = calls_view(kept@);
            let call = ToolCallAccumulator {
                id: Some(calls[i].id.clone()),
                kind: Some(calls[i].kind.clone()),
                name: Some(calls[i].function.name.clone()),
                arguments: calls[i].function.arguments.clone(),
                response_item_id: None,
            };
            kept.set(k, (i, call));
            proof {
                lemma_slot(before, i);
                assert(call@ == full_call(all[i as int]));
                assert(calls_view(kept@) =~= opened.update(k as int, (i, call@)));
                assert(calls_view(kept@) =~= put_call(before, i, call@));
                lemma_put_keeps_order(before, i, call@);
            }
            i += 1;
        }
        assert(all.take(all.len() as int) == all);
        self.calls = kept;
    }

    /// Adds arguments to the call that an event speaks of.
    pub fn apply_response_arguments_delta(
        &mut self,
        output_index: Option<usize>,
        item_id: Option<&str>,
        delta: &str,
    )
        ensures
            final(self)@ == with_arguments_delta(
                old(self)@,
                output_index,
                opt_view(item_id),
                delta@,
            ),
            increasing(old(self)@),
            increasing(final(self)@),
    {
        proof {
            use_type_invariant(&*self);
        }
        if delta.is_empty() {
            return;
        }
        let ghost before = self@;
        let mut calls = self.take();
        let k = response_call_mut(&mut calls, output_index, item_id);
        let ghost opened = calls_view(calls@);
        let call = &mut calls[k].1;
        call.arguments.append(delta);
        proof {
            let index = response_index(before, output_index, opt_view(item_id));
            lemma_slot(before, index);
            let old_call = response_call(before, output_index, opt_view(item_id));
            let call = ToolCallAccumulatorView {
                arguments: old_call.arguments + delta@,
                ..old_call
            };
            assert(calls@[k as int].1@ == call);
            assert(calls_view(calls@) =~= opened.update(k as int, (index, call)));
            assert(calls_view(calls@) =~= put_call(before, index, call));
            lemma_put_keeps_order(before, index, call);
        }
        self.calls = calls;
    }

    /// Takes the whole arguments of the call that an event speaks of.
    pub fn apply_response_arguments_done(
        &mut self,
        output_index: Option<usize>,
        item_id: Option<&str>,
        arguments: &str,
    )
        ensures
            final(self)@ == with_arguments(
                old(self)@,
                output_index,
                opt_view(item_id),
                arguments@,
            ),
            increasing(old(self)@),
            increasing(final(self)@),
    {
        let ghost before = self@;
        let mut calls = self.take();
        let k = response_call_mut(&mut calls, output_index, item_id);
        let ghost opened = calls_view(calls@);
        let call = &mut calls[k].1;
        call.arguments = arguments.to_owned();
        proof {
            let index = response_index(before, output_index, opt_view(item_id));
            lemma_slot(before, index);
            let old_call = response_call(before, output_index, opt_view(item_id));
            let call = ToolCallAccumulatorView { arguments: arguments@, ..old_call };
            assert(calls@[k as int].1@ == call);
            assert(calls_view(calls@) =~= opened.update(k as int, (index, call)));
            assert(calls_view(calls@) =~= put_call(before, index, call));
            lemma_put_keeps_order(before, index, call);
        }
        self.calls = calls;
    }

    /// Takes what an output item says of a call.
    pub fn apply_response_output_item(&mut self, output_index: Option<usize>, item: &Json)
        ensures
            final(self)@ == with_output_item(old(self)@, output_index, item@),
            increasing(old(self)@),
            increasing(final(self)@),
    {
        let ghost before = self@;
        let mut calls = self.take();
        apply_output_item(&mut calls, output_index, item);
        proof {
            lemma_output_item_keeps_order(before, output_index, item@);
        }
        self.calls = calls;
    }

    /// Takes what the output of a response says of the calls.
    pub fn apply_responses_output(&mut self, response: &Json)
        ensures
            final(self)@ == with_response(old(self)@, response@),
            increasing(old(self)@),
            increasing(final(self)@),
    {
        let ghost before = self@;
        let mut calls = self.take();
        match response.get_array("output") {
            Some(items) => {
                let ghost all = views(items@);
                let mut i: usize = 0;
                while i < items.len()
                    invariant
                        i <= items.len(),
                        all == views(items@),
                        calls_view(calls@) == with_output_items(before, all.take(i as int)),
                        increasing(calls_view(calls@)),
                    decreases items.len() - i,
                {
                    assert(all.take(i + 1).drop_last() == all.take(i as int));
                    proof {
                        lemma_output_item_keeps_order(
                            calls_view(calls@),
                            Some(i),
                            all[i as int],
                        );
                    }
                    apply_output_item(&mut calls, Some(i), &items[i]);
                    i += 1;
                }
                assert(all.take(all.len() as int) == all);
            },
            None => {},
        }
        self.calls = calls;
    }

    /// The calls, in the order of their indices.
    pub fn into_calls(self) -> (r: Vec<(usize, ToolCallAccumulator)>)
        ensures
            calls_view(r@) == self@,
            increasing(self@),
    {
        proof {
            use_type_invariant(&self);
        }
        self.calls
    }
}

/// What an output item says keeps the order of the indices.
pub proof fn lemma_output_item_keeps_order(
    calls: Seq<(usize, ToolCallAccumulatorView)>,
    output_index: Option<usize>,
    item: JsonView,
)
    requires
        increasing(calls),
    ensures
        increasing(with_output_item(calls, output_index, item)),
{
    if item.get_str("type"@) == Some("function_call"@) {
        let item_id = item.get_str("id"@);
        let index = response_index(calls, output_index, item_id);
        lemma_slot(calls, index);
        let put = with_output_item(calls, output_index, item);
        lemma_put_keeps_order(calls, index, put[slot(calls, index)].1);
    }
}

// ---------------------------------------------------------------------------------------------
// What becomes of the calls of a response
// ---------------------------------------------------------------------------------------------
/// What a finished item says of its call counts, whatever was gathered before: the arguments that
/// it has are the arguments of the call, and so are its name and its identifiers. The calls at
/// other indices stay as they were.
pub proof fn lemma_item_says_what_its_call_is(
    calls: Seq<(usize, ToolCallAccumulatorView)>,
    index: usize,
    item: JsonView,
    other: usize,
)
    requires
        increasing(calls),
        item.get("type"@) == Some(JsonView::Str("function_call"@)),
    ensures
        has_call(with_output_item(calls, Some(index), item), index),
        ({
            let call = call_at(with_output_item(calls, Some(index), item), index);
            let before = call_at(calls, index);
            &&& call.kind == Some("function"@)
            &&& item.get_str("arguments"@) is Some ==> item.get_str("arguments"@) == Some(
                call.arguments,
            )
            &&& item.get_str("name"@) is Some ==> call.name == item.get_str("name"@)
            &&& item.get_str("id"@) is Some ==> call.response_item_id == item.get_str("id"@)
            &&& item.get_str("call_id"@) is Some && item.get_str("call_id"@)->0.len() > 0
                ==> call.id == item.get_str("call_id"@)
            &&& item.get("arguments"@) is None ==> call.arguments == before.arguments
            &&& item.get("name"@) is None ==> call.name == before.name
            &&& item.get("id"@) is None ==> call.response_item_id == before.response_item_id
            &&& item.get("call_id"@) is None && item.get("id"@) is None ==> call.id == before.id
        }),
        item.get("call_id"@) is None && item.get_str("id"@) is Some && item.get_str("id"@)->0.len()
            > 0 ==> call_at(with_output_item(calls, Some(index), item), index).id == item.get_str(
            "id"@,
        ),
        other != index ==> call_at(with_output_item(calls, Some(index), item), other) == call_at(
            calls,
            other,
        ) && has_call(with_output_item(calls, Some(index), item), other) == has_call(calls, other),
{
    lemma_slot(calls, index);
    let put = with_output_item(calls, Some(index), item);
    let call = put[slot(calls, index)].1;
    lemma_put_reads_back(calls, index, call, other);
}

/// An item that is no function call says nothing of the calls.
pub proof fn lemma_other_items_say_nothing(
    calls: Seq<(usize, ToolCallAccumulatorView)>,
    output_index: Option<usize>,
    item: JsonView,
)
    requires
        item.get("type"@) != Some(JsonView::Str("function_call"@)),
    ensures
        with_output_item(calls, output_index, item) == calls,
{
}

/// To take an item twice is to take it once.
pub proof fn lemma_item_can_be_taken_twice(
    calls: Seq<(usize, ToolCallAccumulatorView)>,
    index: usize,
    item: JsonView,
)
    requires
        increasing(calls),
        item.get("arguments"@) is Some ==> item.get("arguments"@)->0 is Str,
    ensures
        with_output_item(with_output_item(calls, Some(index), item), Some(index), item)
            == with_output_item(calls, Some(index), item),
{
    if item.get("type"@) == Some(JsonView::Str("function_call"@)) {
        lemma_slot(calls, index);
        let once = with_output_item(calls, Some(index), item);
        let k = slot(calls, index);
        lemma_output_item_keeps_order(calls, Some(index), item);
        assert(once[k].0 == index);
        lemma_call_found(once, k);
        let twice = with_output_item(once, Some(index), item);
        assert(twice[k].1 =~= once[k].1);
        assert(twice =~= once);
    }
}

/// A piece of arguments goes to the call of its index, behind the arguments that it had; the whole
/// arguments take their place. The calls at other indices stay as they were.
pub proof fn lemma_arguments_go_to_their_call(
    calls: Seq<(usize, ToolCallAccumulatorView)>,
    index: usize,
    item_id: Option<Seq<char>>,
    text: Seq<char>,
    other: usize,
)
    requires
        increasing(calls),
    ensures
        ({
            let before = call_at(calls, index);
            let more = call_at(with_arguments_delta(calls, Some(index), item_id, text), index);
            let whole = call_at(with_arguments(calls, Some(index), item_id, text), index);
            &&& more.arguments == before.arguments + text
            &&& more.id == before.id && more.name == before.name && more.kind == before.kind
            &&& whole.arguments == text
            &&& whole.id == before.id && whole.name == before.name && whole.kind == before.kind
            &&& item_id is Some ==> whole.response_item_id == item_id
            &&& item_id is Some && text.len() > 0 ==> more.response_item_id == item_id
        }),
        other != index ==> call_at(
            with_arguments_delta(calls, Some(index), item_id, text),
            other,
        ) == call_at(calls, other) && call_at(
            with_arguments(calls, Some(index), item_id, text),
            other,
        ) == call_at(calls, other),
        increasing(with_arguments_delta(calls, Some(index), item_id, text)),
        increasing(with_arguments(calls, Some(index), item_id, text)),
{
    let before = response_call(calls, Some(index), item_id);
    let more = ToolCallAccumulatorView { arguments: before.arguments + text, ..before };
    let whole = ToolCallAccumulatorView { arguments: text, ..before };
    lemma_put_reads_back(calls, index, more, other);
    lemma_put_reads_back(calls, index, whole, other);
    lemma_put_keeps_order(calls, index, more);
    lemma_put_keeps_order(calls, index, whole);
    if text.len() == 0 {
        assert(call_at(calls, index).arguments + text =~= call_at(calls, index).arguments);
    }
}

/// An event that gives no index but the item of a call that is known speaks of that call; one that
/// gives neither, or an item that is not known, speaks of a call behind all others.
pub proof fn lemma_events_find_their_call(
    calls: Seq<(usize, ToolCallAccumulatorView)>,
    item_id: Seq<char>,
    k: int,
)
    requires
        increasing(calls),
    ensures
        0 <= k < calls.len() && calls[k].1.response_item_id == Some(item_id) && (forall|j: int|
            0 <= j < k ==> (#[trigger] calls[j]).1.response_item_id != Some(item_id))
            ==> response_index(calls, None, Some(item_id)) == calls[k].0,
        (forall|j: int|
            0 <= j < calls.len() ==> (
                #[trigger] calls[j]
            ).1.response_item_id != Some(item_id) && calls[j].0
                < usize::MAX) ==> ({
            let index = response_index(calls, None, Some(item_id));
            &&& !has_call(calls, index)
            &&& forall|j: int| 0 <= j < calls.len() ==> (#[trigger] calls[j]).0 < index
            &&& calls.len() == 0 ==> index == 0
            &&& calls.len() > 0 ==> index == calls.last().0 + 1
            &&& response_index(calls, None, None) == index
        }),
{
    lemma_index_of_item(calls, item_id);
    if forall|j: int|
        0 <= j < calls.len() ==> (
            #[trigger] calls[j]
        ).1.response_item_id != Some(item_id) && calls[j].0
            < usize::MAX {
        let index = response_index(calls, None, Some(item_id));
        if calls.len() > 0 {
            assert(calls[calls.len() - 1].0 < usize::MAX);
        }
        assert forall|j: int| 0 <= j < calls.len() implies (#[trigger] calls[j]).0 < index by {
            if j < calls.len() - 1 {
                assert(calls[j].0 < calls[calls.len() - 1].0);
            }
        }
        lemma_slot(calls, index);
    }
}

/// The first call of an item is found, and nothing where no call belongs to it.
proof fn lemma_index_of_item(calls: Seq<(usize, ToolCallAccumulatorView)>, item_id: Seq<char>)
    ensures
        index_of_item(calls, item_id) is None ==> forall|j: int|
            0 <= j < calls.len() ==> (#[trigger] calls[j]).1.response_item_id != Some(item_id),
        index_of_item(calls, item_id) matches Some(index) ==> exists|k: int|
            0 <= k < calls.len() && (#[trigger] calls[k]).0 == index && calls[k].1.response_item_id
                == Some(item_id) && forall|j: int|
                0 <= j < k ==> (#[trigger] calls[j]).1.response_item_id != Some(item_id),
    decreases calls.len(),
{
    if calls.len() > 0 {
        let rest = calls.drop_last();
        lemma_index_of_item(rest, item_id);
        match index_of_item(rest, item_id) {
            Some(index) => {
                let k = choose|k: int|
                    0 <= k < rest.len() && (#[trigger] rest[k]).0 == index
                        && rest[k].1.response_item_id == Some(item_id) && forall|j: int|
                        0 <= j < k ==> (#[trigger] rest[j]).1.response_item_id != Some(item_id);
                assert(calls[k].0 == index);
                assert forall|j: int| 0 <= j < k implies (#[trigger] calls[j]).1.response_item_id
                    != Some(item_id) by {
                    assert(rest[j].1.response_item_id != Some(item_id));
                }
            },
            None => {
                assert forall|j: int| 0 <= j < calls.len() - 1 implies (
                #[trigger] calls[j]).1.response_item_id != Some(item_id) by {
                    assert(rest[j].1.response_item_id != Some(item_id));
                }
                assert(calls[calls.len() - 1] == calls.last());
            },
        }
    }
}

/// The output of a response tells the calls: the item at each index says what the call at that
/// index is.
pub proof fn lemma_output_tells_the_calls(
    calls: Seq<(usize, ToolCallAccumulatorView)>,
    items: Seq<JsonView>,
    i: int,
)
    requires
        increasing(calls),
        0 <= i < items.len() <= usize::MAX,
        items[i].get("type"@) == Some(JsonView::Str("function_call"@)),
    ensures
        increasing(with_output_items(calls, items)),
        has_call(with_output_items(calls, items), i as usize),
        ({
            let call = call_at(with_output_items(calls, items), i as usize);
            let item = items[i];
            &&& item.get_str("arguments"@) is Some ==> item.get_str("arguments"@) == Some(
                call.arguments,
            )
            &&& item.get_str("name"@) is Some ==> call.name == item.get_str("name"@)
            &&& item.get_str("call_id"@) is Some && item.get_str("call_id"@)->0.len() > 0
                ==> call.id == item.get_str("call_id"@)
        }),
    decreases items.len(),
{
    let rest = items.drop_last();
    let before = with_output_items(calls, rest);
    lemma_output_items_keep_order(calls, rest);
    lemma_output_item_keeps_order(before, Some((items.len() - 1) as usize), items.last());
    if i == items.len() - 1 {
        lemma_item_says_what_its_call_is(before, i as usize, items.last(), i as usize);
    } else {
        lemma_output_tells_the_calls(calls, rest, i);
        assert(rest[i] == items[i]);
        if items.last().get("type"@) == Some(JsonView::Str("function_call"@)) {
            lemma_item_says_what_its_call_is(
                before,
                (items.len() - 1) as usize,
                items.last(),
                i as usize,
            );
        } else {
            lemma_other_items_say_nothing(before, Some((items.len() - 1) as usize), items.last());
        }
    }
}

proof fn lemma_output_items_keep_order(
    calls: Seq<(usize, ToolCallAccumulatorView)>,
    items: Seq<JsonView>,
)
    requires
        increasing(calls),
    ensures
        increasing(with_output_items(calls, items)),
    decreases items.len(),
{
    if items.len() > 0 {
        lemma_output_items_keep_order(calls, items.drop_last());
        lemma_output_item_keeps_order(
            with_output_items(calls, items.drop_last()),
            Some((items.len() - 1) as usize),
            items.last(),
        );
    }
}

/// Whole tool calls stand at the first indices, each as it is; the calls behind them stay.
pub proof fn lemma_whole_calls_are_taken(
    calls: Seq<(usize, ToolCallAccumulatorView)>,
    full: Seq<OpenAIMessageToolCallView>,
    index: usize,
)
    requires
        increasing(calls),
        full.len() <= usize::MAX,
    ensures
        increasing(with_full_calls(calls, full)),
        index < full.len() ==> has_call(with_full_calls(calls, full), index) && ({
            let call = call_at(with_full_calls(calls, full), index);
            &&& call.id == Some(full[index as int].id)
            &&& call.kind == Some(full[index as int].kind)
            &&& call.name == Some(full[index as int].function.name)
            &&& call.arguments == full[index as int].function.arguments
        }),
        index >= full.len() ==> call_at(with_full_calls(calls, full), index) == call_at(
            calls,
            index,
        ),
    decreases full.len(),
{
    if full.len() > 0 {
        let rest = full.drop_last();
        lemma_whole_calls_are_taken(calls, rest, index);
        let before = with_full_calls(calls, rest);
        let last = (full.len() - 1) as usize;
        lemma_put_keeps_order(before, last, full_call(full.last()));
        lemma_put_reads_back(before, last, full_call(full.last()), index);
        if index < rest.len() {
            assert(rest[index as int] == full[index as int]);
        }
    }
}

/// The first call of an item stays the first when more calls follow.
proof fn lemma_item_in_longer(
    calls: Seq<(usize, ToolCallAccumulatorView)>,
    more: Seq<(usize, ToolCallAccumulatorView)>,
    item_id: Seq<char>,
)
    requires
        index_of_item(calls, item_id) is Some,
    ensures
        index_of_item(calls + more, item_id) == index_of_item(calls, item_id),
    decreases more.len(),
{
    if more.len() == 0 {
        assert(calls + more == calls);
    } else {
        assert((calls + more).drop_last() == calls + more.drop_last());
        lemma_item_in_longer(calls, more.drop_last(), item_id);
    }
}

/// The call of an index is the one that stands under it; where none does, nothing is known of it.
pub proof fn lemma_calls_are_found(
    calls: Seq<(usize, ToolCallAccumulatorView)>,
    index: usize,
    k: int,
)
    requires
        increasing(calls),
    ensures
        0 <= k < calls.len() && calls[k].0 == index ==> call_at(calls, index) == calls[k].1,
        (forall|j: int| 0 <= j < calls.len() ==> (#[trigger] calls[j]).0 != index) ==> ({
            let call = call_at(calls, index);
            &&& call.id is None && call.kind is None && call.name is None
            &&& call.arguments.len() == 0
            &&& call.response_item_id is None
        }),
{
    if 0 <= k < calls.len() && calls[k].0 == index {
        lemma_call_found(calls, k);
    }
    if forall|j: int| 0 <= j < calls.len() ==> (#[trigger] calls[j]).0 != index {
        lemma_slot(calls, index);
        let s = slot(calls, index);
        if s < calls.len() {
            assert(calls[s].0 != index);
        }
    }
}

/// A piece of a call goes to the call of its index: its arguments come behind those that came
/// before, and its name, its identifier and its kind count where they are given.
pub proof fn lemma_piece_is_gathered(
    calls: Seq<(usize, ToolCallAccumulatorView)>,
    delta: OpenAIToolCallDeltaView,
    other: usize,
)
    requires
        increasing(calls),
    ensures
        ({
            let before = call_at(calls, delta.index);
            let after = call_at(with_delta(calls, delta), delta.index);
            &&& delta.id is Some ==> after.id == delta.id
            &&& delta.id is None ==> after.id == before.id
            &&& delta.kind is Some ==> after.kind == delta.kind
            &&& delta.kind is None ==> after.kind == before.kind
            &&& delta.function is None ==> after.name == before.name && after.arguments
                == before.arguments
            &&& delta.function matches Some(function) ==> {
                &&& function.name is Some ==> after.name == function.name
                &&& function.name is None ==> after.name == before.name
                &&& function.arguments is None ==> after.arguments == before.arguments
                &&& function.arguments matches Some(arguments) ==> after.arguments
                    == before.arguments + arguments
            }
        }),
        other != delta.index ==> call_at(with_delta(calls, delta), other) == call_at(calls, other),
{
    lemma_put_reads_back(
        calls,
        delta.index,
        extended_call(call_at(calls, delta.index), delta),
        other,
    );
    lemma_put_reads_back(
        calls,
        delta.index,
        extended_call(call_at(calls, delta.index), delta),
        delta.index,
    );
}

/// Pieces are gathered one after another.
pub proof fn lemma_pieces_are_gathered_in_order(
    calls: Seq<(usize, ToolCallAccumulatorView)>,
    deltas: Seq<OpenAIToolCallDeltaView>,
    last: OpenAIToolCallDeltaView,
)
    ensures
        with_deltas(calls, Seq::empty()) == calls,
        with_deltas(calls, deltas.push(last)) == with_delta(with_deltas(calls, deltas), last),
{
    assert(deltas.push(last).drop_last() =~= deltas);
}

} // verus!
