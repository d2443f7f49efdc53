//! Requests to a backend, in the form of chat completions and in the form of responses.
use crate::ids::{fresh_id, new_ids};
use crate::json::{Json, JsonView};
use crate::json::members_view;
use crate::lists::{owned, reversed};
use crate::text::{opt_view, same, views, views_opt};
use crate::wire::{OpenAIMessageToolCall, OpenAIMessageToolCallView};
use vstd::prelude::*;

verus! {

// ---------------------------------------------------------------------------------------------
// Chat completions
// ---------------------------------------------------------------------------------------------
/// A message of a chat.
#[derive(Debug)]
pub struct OpenAIChatMessage {
    pub role: String,
    pub content: Option<String>,
    pub tool_call_id: Option<String>,
    pub tool_calls: Option<Vec<OpenAIMessageToolCall>>,
}

/// The model of [`OpenAIChatMessage`].
#[verifier::ext_equal]
pub struct OpenAIChatMessageView {
    pub role: Seq<char>,
    pub content: Option<Seq<char>>,
    pub tool_call_id: Option<Seq<char>>,
    pub tool_calls: Option<Seq<OpenAIMessageToolCallView>>,
}

impl View for OpenAIChatMessage {
    type V = OpenAIChatMessageView;

    open spec fn view(&self) -> OpenAIChatMessageView {
        OpenAIChatMessageView {
            role: self.role@,
            content: opt_view(self.content),
            tool_call_id: opt_view(self.tool_call_id),
            tool_calls: views_opt(self.tool_calls),
        }
    }
}

/// A function that the model may call.
#[derive(Debug)]
pub struct OpenAIFunctionDefinition {
    pub name: String,
    pub description: String,
    pub parameters: Json,
}

/// The model of [`OpenAIFunctionDefinition`].
#[verifier::ext_equal]
pub struct OpenAIFunctionDefinitionView {
    pub name: Seq<char>,
    pub description: Seq<char>,
    pub parameters: JsonView,
}

impl View for OpenAIFunctionDefinition {
    type V = OpenAIFunctionDefinitionView;

    open spec fn view(&self) -> OpenAIFunctionDefinitionView {
        OpenAIFunctionDefinitionView {
            name: self.name@,
            description: self.description@,
            parameters: self.parameters@,
        }
    }
}

/// A tool that the model may call.
#[derive(Debug)]
pub struct OpenAITool {
    pub kind: String,
    pub function: OpenAIFunctionDefinition,
}

/// The model of [`OpenAITool`].
#[verifier::ext_equal]
pub struct OpenAIToolView {
    pub kind: Seq<char>,
    pub function: OpenAIFunctionDefinitionView,
}

impl View for OpenAITool {
    type V = OpenAIToolView;

    open spec fn view(&self) -> OpenAIToolView {
        OpenAIToolView {
            kind: self.kind@,
            function: self.function@,
        }
    }
}

/// A request for a chat completion.
#[derive(Debug)]
pub struct OpenAIChatRequest {
    pub model: String,
    pub messages: Vec<OpenAIChatMessage>,
    pub tools: Vec<OpenAITool>,
    pub stream: bool,
}

/// The model of [`OpenAIChatRequest`].
#[verifier::ext_equal]
pub struct OpenAIChatRequestView {
    pub model: Seq<char>,
    pub messages: Seq<OpenAIChatMessageView>,
    pub tools: Seq<OpenAIToolView>,
    pub stream: bool,
}

impl View for OpenAIChatRequest {
    type V = OpenAIChatRequestView;

    open spec fn view(&self) -> OpenAIChatRequestView {
        OpenAIChatRequestView {
            model: self.model@,
            messages: views(self.messages@),
            tools: views(self.tools@),
            stream: self.stream,
        }
    }
}

/// A message of the role `system`.
pub open spec fn system_message(content: Seq<char>) -> OpenAIChatMessageView {
    OpenAIChatMessageView {
        role: "system"@,
        content: Some(content),
        tool_call_id: None,
        tool_calls: None,
    }
}

/// A message of the role `user`.
pub open spec fn user_message(content: Seq<char>) -> OpenAIChatMessageView {
    OpenAIChatMessageView {
        role: "user"@,
        content: Some(content),
        tool_call_id: None,
        tool_calls: None,
    }
}

/// A message of the role `assistant`.
pub open spec fn assistant_message(content: Seq<char>) -> OpenAIChatMessageView {
    OpenAIChatMessageView {
        role: "assistant"@,
        content: Some(content),
        tool_call_id: None,
        tool_calls: None,
    }
}

/// A message in which the assistant calls a tool.
pub open spec fn tool_call_message(call: OpenAIMessageToolCallView) -> OpenAIChatMessageView {
    OpenAIChatMessageView {
        role: "assistant"@,
        content: None,
        tool_call_id: None,
        tool_calls: Some(seq![call]),
    }
}

/// A message with the result of a tool call.
pub open spec fn tool_message(
    tool_call_id: Seq<char>,
    content: Seq<char>,
) -> OpenAIChatMessageView {
    OpenAIChatMessageView {
        role: "tool"@,
        content: Some(content),
        tool_call_id: Some(tool_call_id),
        tool_calls: None,
    }
}

impl OpenAIChatMessage {
    /// A message of the role `system`.
    pub fn system(content: String) -> (r: Self)
        ensures
            r@ == system_message(content@),
    {
        OpenAIChatMessage {
            role: "system".to_owned(),
            content: Some(content),
            tool_call_id: None,
            tool_calls: None,
        }
    }

    /// A message of the role `user`.
    pub fn user(content: String) -> (r: Self)
        ensures
            r@ == user_message(content@),
    {
        OpenAIChatMessage {
            role: "user".to_owned(),
            content: Some(content),
            tool_call_id: None,
            tool_calls: None,
        }
    }

    /// A message of the role `assistant`.
    pub fn assistant(content: String) -> (r: Self)
        ensures
            r@ == assistant_message(content@),
    {
        OpenAIChatMessage {
            role: "assistant".to_owned(),
            content: Some(content),
            tool_call_id: None,
            tool_calls: None,
        }
    }

    /// A message in which the assistant calls a tool.
    pub fn assistant_tool_call(tool_call: OpenAIMessageToolCall) -> (r: Self)
        ensures
            r@ == tool_call_message(tool_call@),
    {
        let calls = vec![tool_call];
        assert(views(calls@) =~= seq![tool_call@]);
        OpenAIChatMessage {
            role: "assistant".to_owned(),
            content: None,
            tool_call_id: None,
            tool_calls: Some(calls),
        }
    }

    /// A message with the result of a tool call.
    pub fn tool(tool_call_id: String, content: String) -> (r: Self)
        ensures
            r@ == tool_message(tool_call_id@, content@),
    {
        OpenAIChatMessage {
            role: "tool".to_owned(),
            content: Some(content),
            tool_call_id: Some(tool_call_id),
            tool_calls: None,
        }
    }
}

// ---------------------------------------------------------------------------------------------
// Responses
// ---------------------------------------------------------------------------------------------
/// A tool that the model may call, in the form of responses.
#[derive(Debug)]
pub struct OpenAIResponsesTool {
    pub kind: String,
    pub name: String,
    pub description: String,
    pub parameters: Json,
}

/// The model of [`OpenAIResponsesTool`].
#[verifier::ext_equal]
pub struct OpenAIResponsesToolView {
    pub kind: Seq<char>,
    pub name: Seq<char>,
    pub description: Seq<char>,
    pub parameters: JsonView,
}

impl View for OpenAIResponsesTool {
    type V = OpenAIResponsesToolView;

    open spec fn view(&self) -> OpenAIResponsesToolView {
        OpenAIResponsesToolView {
            kind: self.kind@,
            name: self.name@,
            description: self.description@,
            parameters: self.parameters@,
        }
    }
}

/// A request for a response.
#[derive(Debug)]
pub struct OpenAIResponsesRequest {
    pub model: String,
    pub input: Vec<Json>,
    pub tools: Vec<OpenAIResponsesTool>,
    pub stream: bool,
    pub store: bool,
}

/// The model of [`OpenAIResponsesRequest`].
#[verifier::ext_equal]
pub struct OpenAIResponsesRequestView {
    pub model: Seq<char>,
    pub input: Seq<JsonView>,
    pub tools: Seq<OpenAIResponsesToolView>,
    pub stream: bool,
    pub store: bool,
}

impl View for OpenAIResponsesRequest {
    type V = OpenAIResponsesRequestView;

    open spec fn view(&self) -> OpenAIResponsesRequestView {
        OpenAIResponsesRequestView {
            model: self.model@,
            input: views(self.input@),
            tools: views(self.tools@),
            stream: self.stream,
            store: self.store,
        }
    }
}

/// An item of the input with the text of a message.
pub open spec fn text_item(role: Seq<char>, content: Seq<char>) -> JsonView {
    JsonView::Object(
        seq![("content"@, JsonView::Str(content)), ("role"@, JsonView::Str(role))],
    )
}

/// An item of the input with the result of a function call.
pub open spec fn output_item(call_id: Seq<char>, output: Seq<char>) -> JsonView {
    JsonView::Object(
        seq![
            ("call_id"@, JsonView::Str(call_id)),
            ("output"@, JsonView::Str(output)),
            ("type"@, JsonView::Str("function_call_output"@)),
        ],
    )
}

/// An item of the input with a function call.
pub open spec fn call_item(call: OpenAIMessageToolCallView) -> JsonView {
    JsonView::Object(
        seq![
            ("arguments"@, JsonView::Str(call.function.arguments)),
            ("call_id"@, JsonView::Str(call.id)),
            ("name"@, JsonView::Str(call.function.name)),
            ("type"@, JsonView::Str("function_call"@)),
        ],
    )
}

/// The items of the input that a message gives: one for its content, unless that is empty, and one
/// for each tool call. A result without the identifier of its call gets a fresh one.
pub open spec fn message_items(message: OpenAIChatMessageView, fresh: Seq<char>) -> Seq<JsonView> {
    let content = match message.content {
        Some(text) => if text.len() == 0 {
            Seq::empty()
        } else if message.role == "tool"@ {
            seq![
                output_item(
                    match message.tool_call_id {
                        Some(id) => id,
                        None => fresh,
                    },
                    text,
                ),
            ]
        } else {
            seq![text_item(message.role, text)]
        },
        None => Seq::empty(),
    };
    match message.tool_calls {
        Some(calls) => content + Seq::new(calls.len(), |i: int| call_item(calls[i])),
        None => content,
    }
}

/// The items of the input that messages give, with a fresh identifier for each message.
pub open spec fn messages_items(
    messages: Seq<OpenAIChatMessageView>,
    fresh: Seq<Seq<char>>,
) -> Seq<JsonView>
    decreases messages.len(),
{
    if messages.len() == 0 {
        Seq::empty()
    } else {
        messages_items(messages.drop_last(), fresh) + message_items(
            messages.last(),
            fresh[messages.len() - 1],
        )
    }
}

/// The identifier of the call that an item speaks of.
pub open spec fn item_call(item: JsonView) -> Option<Seq<char>> {
    item.get_str("call_id"@)
}

/// Whether an item is of that type and speaks of that call.
pub open spec fn speaks_of(item: JsonView, kind: Seq<char>, call_id: Seq<char>) -> bool {
    item.get_str("type"@) == Some(kind) && item_call(item) == Some(call_id)
}

/// Whether one of the items is of that type and speaks of that call.
pub open spec fn any_speaks_of(items: Seq<JsonView>, kind: Seq<char>, call_id: Seq<char>) -> bool {
    exists|i: int| 0 <= i < items.len() && speaks_of(#[trigger] items[i], kind, call_id)
}

/// Whether an item of the input is neither a function call without a result nor a result without a
/// function call.
pub open spec fn paired(items: Seq<JsonView>, item: JsonView) -> bool {
    match item.get_str("type"@) {
        Some(kind) => if kind == "function_call"@ {
            item_call(item) is Some && any_speaks_of(
                items,
                "function_call_output"@,
                item_call(item)->0,
            )
        } else if kind == "function_call_output"@ {
            item_call(item) is Some && any_speaks_of(items, "function_call"@, item_call(item)->0)
        } else {
            true
        },
        None => true,
    }
}

/// The first `n` items without those that are not paired.
pub open spec fn paired_among(items: Seq<JsonView>, n: int) -> Seq<JsonView>
    decreases n,
{
    if n <= 0 {
        Seq::empty()
    } else if paired(items, items[n - 1]) {
        paired_among(items, n - 1).push(items[n - 1])
    } else {
        paired_among(items, n - 1)
    }
}

/// The items without those that are not paired.
pub open spec fn paired_items(items: Seq<JsonView>) -> Seq<JsonView> {
    paired_among(items, items.len() as int)
}

/// What is kept are items that are paired, and every paired item is kept.
proof fn lemma_kept(items: Seq<JsonView>, n: int)
    requires
        0 <= n <= items.len(),
    ensures
        forall|k: int|
            0 <= k < paired_among(items, n).len() ==> paired(
                items,
                #[trigger] paired_among(items, n)[k],
            ),
        forall|i: int|
            0 <= i < n && paired(items, #[trigger] items[i]) ==> paired_among(items, n).contains(
                items[i],
            ),
    decreases n,
{
    if n > 0 {
        lemma_kept(items, n - 1);
        let before = paired_among(items, n - 1);
        let kept = paired_among(items, n);
        assert forall|i: int| 0 <= i < n && paired(
            items,
            #[trigger] items[i],
        ) implies kept.contains(
            items[i],
        ) by {
            if i < n - 1 {
                assert(before.contains(items[i]));
                let k = choose|k: int| 0 <= k < before.len() && before[k] == items[i];
                assert(kept[k] == items[i]);
            } else {
                assert(kept[kept.len() - 1] == items[i]);
            }
        }
    }
}

/// What is kept of the input is paired within what is kept: a function call is there only with its
/// result, and a result only with its function call.
pub proof fn lemma_kept_items_are_paired(items: Seq<JsonView>, k: int)
    requires
        0 <= k < paired_items(items).len(),
    ensures
        paired(paired_items(items), paired_items(items)[k]),
{
    let kept = paired_items(items);
    lemma_kept(items, items.len() as int);
    let item = kept[k];
    reveal_strlit("function_call");
    reveal_strlit("function_call_output");
    assert("function_call"@.len() != "function_call_output"@.len());
    let kind = item.get_str("type"@);
    if kind == Some("function_call"@) || kind == Some("function_call_output"@) {
        let other = if kind == Some("function_call"@) {
            "function_call_output"@
        } else {
            "function_call"@
        };
        let id = item_call(item)->0;
        assert(any_speaks_of(items, other, id));
        let j = choose|j: int| 0 <= j < items.len() && speaks_of(#[trigger] items[j], other, id);
        assert(speaks_of(item, kind->0, id));
        assert(occurs(items, item)) by {
            lemma_kept_occurs(items, items.len() as int, k);
        }
        let i = choose|i: int| 0 <= i < items.len() && items[i] == item;
        assert(speaks_of(items[i], kind->0, id));
        assert(any_speaks_of(items, kind->0, id));
        assert(paired(items, items[j]));
        assert(kept.contains(items[j]));
        let m = choose|m: int| 0 <= m < kept.len() && kept[m] == items[j];
        assert(speaks_of(kept[m], other, id));
    }
}

/// Whether an item occurs among others.
spec fn occurs(items: Seq<JsonView>, item: JsonView) -> bool {
    exists|i: int| 0 <= i < items.len() && items[i] == item
}

/// What is kept was there before.
proof fn lemma_kept_occurs(items: Seq<JsonView>, n: int, k: int)
    requires
        0 <= n <= items.len(),
        0 <= k < paired_among(items, n).len(),
    ensures
        occurs(items, paired_among(items, n)[k]),
    decreases n,
{
    if n > 0 {
        if paired(items, items[n - 1]) && k == paired_among(items, n).len() - 1 {
            assert(items[n - 1] == paired_among(items, n)[k]);
        } else {
            lemma_kept_occurs(items, n - 1, k);
        }
    }
}

/// Dropping what is not paired a second time drops nothing more.
pub proof fn lemma_pairing_is_stable(items: Seq<JsonView>)
    ensures
        paired_items(paired_items(items)) == paired_items(items),
{
    let kept = paired_items(items);
    assert forall|k: int| 0 <= k < kept.len() implies paired(kept, #[trigger] kept[k]) by {
        lemma_kept_items_are_paired(items, k);
    }
    lemma_all_paired(kept, kept.len() as int);
    assert(kept.take(kept.len() as int) == kept);
}

/// Where every item is paired, all are kept.
proof fn lemma_all_paired(items: Seq<JsonView>, n: int)
    requires
        0 <= n <= items.len(),
        forall|k: int| 0 <= k < items.len() ==> paired(items, #[trigger] items[k]),
    ensures
        paired_among(items, n) == items.take(n),
    decreases n,
{
    if n > 0 {
        lemma_all_paired(items, n - 1);
        assert(items.take(n - 1).push(items[n - 1]) =~= items.take(n));
    } else {
        assert(items.take(0) =~= Seq::<JsonView>::empty());
    }
}

/// The identifier of the call that an item speaks of.
pub fn value_call_id(value: &Json) -> (r: Option<String>)
    ensures
        opt_view(r) == item_call(value@),
{
    owned(value.get_str("call_id"))
}

/// The identifiers of the calls that the items of a type speak of.
fn call_ids(items: &Vec<Json>, kind: &str) -> (r: Vec<String>)
    ensures
        forall|id: Seq<char>|
            #![trigger views(r@).contains(id)]
            views(r@).contains(id) <==> any_speaks_of(views(items@), kind@, id),
{
    let ghost all = views(items@);
    let mut r: Vec<String> = Vec::new();
    let mut i: usize = 0;
    while i < items.len()
        invariant
            i <= items.len(),
            all == views(items@),
            forall|k: int|
                0 <= k < r@.len() ==> any_speaks_of(all, kind@, #[trigger] r@[k]@),
            forall|j: int, id: Seq<char>|
                0 <= j < i && #[trigger] speaks_of(all[j], kind@, id) ==> views(r@).contains(id),
        decreases items.len() - i,
    {
        let item = &items[i];
        assert(item@ == all[i as int]);
        let ghost before = r@;
        match (item.get_str("type"), item.get_str("call_id")) {
            (Some(found), Some(id)) => {
                if same(found, kind) {
                    assert(speaks_of(all[i as int], kind@, id@));
                    r.push(id.to_owned());
                    assert(views(r@)[r@.len() - 1] == id@);
                }
            },
            _ => {},
        }
        proof {
            assert forall|j: int, id: Seq<char>|
                0 <= j < i + 1 && #[trigger] speaks_of(all[j], kind@, id) implies views(
                r@,
            ).contains(id) by {
                if j < i {
                    assert(views(before).contains(id));
                    let k = choose|k: int| 0 <= k < before.len() && views(before)[k] == id;
                    assert(views(r@)[k] == id);
                }
            }
        }
        i += 1;
    }
    proof {
        assert forall|id: Seq<char>|
            #![trigger views(r@).contains(id)]
            views(r@).contains(id) <==> any_speaks_of(all, kind@, id) by {
            if views(r@).contains(id) {
                let k = choose|k: int| 0 <= k < r@.len() && views(r@)[k] == id;
                assert(any_speaks_of(all, kind@, r@[k]@));
            }
            if any_speaks_of(all, kind@, id) {
                let j = choose|j: int|
                    0 <= j < all.len() && speaks_of(#[trigger] all[j], kind@, id);
                assert(speaks_of(all[j], kind@, id));
            }
        }
    }
    r
}

/// Whether a text is in a list.
fn lists_text(texts: &Vec<String>, text: &str) -> (r: bool)
    ensures
        r == views(texts@).contains(text@),
{
    let mut i: usize = 0;
    while i < texts.len()
        invariant
            i <= texts.len(),
            forall|k: int| 0 <= k < i ==> views(texts@)[k] != text@,
        decreases texts.len() - i,
    {
        if same(texts[i].as_str(), text) {
            assert(views(texts@)[i as int] == text@);
            return true;
        }
        i += 1;
    }
    false
}

/// Whether an item is paired, given the identifiers of the calls and of the results.
fn is_paired(
    item: &Json,
    calls: &Vec<String>,
    outputs: &Vec<String>,
    Ghost(all): Ghost<Seq<JsonView>>,
) -> (r: bool)
    requires
        forall|id: Seq<char>|
            #![trigger views(calls@).contains(id)]
            views(calls@).contains(id) <==> any_speaks_of(all, "function_call"@, id),
        forall|id: Seq<char>|
            #![trigger views(outputs@).contains(id)]
            views(outputs@).contains(id) <==> any_speaks_of(all, "function_call_output"@, id),
    ensures
        r == paired(all, item@),
{
    match item.get_str("type") {
        Some(kind) => if same(kind, "function_call") {
            match item.get_str("call_id") {
                Some(id) => lists_text(outputs, id),
                None => false,
            }
        } else if same(kind, "function_call_output") {
            match item.get_str("call_id") {
                Some(id) => lists_text(calls, id),
                None => false,
            }
        } else {
            true
        },
        None => true,
    }
}

/// Drops the function calls without a result and the results without a function call.
pub fn retain_paired_function_io(input: Vec<Json>) -> (r: Vec<Json>)
    ensures
        views(r@) == paired_items(views(input@)),
{
    let ghost all = views(input@);
    let calls = call_ids(&input, "function_call");
    let outputs = call_ids(&input, "function_call_output");
    let mut rest = reversed(input);
    let mut r: Vec<Json> = Vec::new();
    let ghost mut n: int = 0;
    loop
        invariant
            0 <= n,
            n + rest@.len() == all.len(),
            forall|i: int|
                0 <= i < rest@.len() ==> (#[trigger] rest@[i])@ == all[all.len() - 1 - i],
            forall|id: Seq<char>|
                #![trigger views(calls@).contains(id)]
                views(calls@).contains(id) <==> any_speaks_of(all, "function_call"@, id),
            forall|id: Seq<char>|
                #![trigger views(outputs@).contains(id)]
                views(outputs@).contains(id) <==> any_speaks_of(all, "function_call_output"@, id),
            views(r@) == paired_among(all, n),
        ensures
            views(r@) == paired_items(all),
        decreases rest@.len(),
    {
        match rest.pop() {
            Some(item) => {
                assert(item@ == all[n]);
                let ghost before = views(r@);
                if is_paired(&item, &calls, &outputs, Ghost(all)) {
                    r.push(item);
                    assert(views(r@) =~= before.push(item@));
                }
                proof {
                    n = n + 1;
                }
            },
            None => {
                break;
            },
        }
    }
    r
}

/// The items of the input that a message gives.
pub fn responses_input_items_from_chat_message(
    message: OpenAIChatMessage,
    fresh: String,
) -> (r: Vec<Json>)
    ensures
        views(r@) == message_items(message@, fresh@),
{
    let mut items: Vec<Json> = Vec::new();
    let is_tool = same(message.role.as_str(), "tool");
    match message.content {
        Some(content) => {
            if !content.as_str().is_empty() {
                if is_tool {
                    let call_id = match message.tool_call_id {
                        Some(id) => id,
                        None => fresh,
                    };
                    let item = make_output_item(call_id, content);
                    items.push(item);
                } else {
                    let item = make_text_item(message.role, content);
                    items.push(item);
                }
            }
        },
        None => {},
    }
    let ghost start = views(items@);
    match message.tool_calls {
        Some(calls) => {
            let mut i: usize = 0;
            while i < calls.len()
                invariant
                    i <= calls.len(),
                    items.len() == start.len() + i,
                    forall|k: int| 0 <= k < start.len() ==> (#[trigger] items@[k])@ == start[k],
                    forall|k: int|
                        start.len() <= k < start.len() + i ==> (#[trigger] items@[k])@ == call_item(
                            calls@[k - start.len()]@,
                        ),
                decreases calls.len() - i,
            {
                let item = make_call_item(&calls[i]);
                items.push(item);
                i += 1;
            }
            let ghost models = views(calls@);
            assert(views(items@) =~= start + Seq::new(models.len(), |i: int| call_item(models[i])));
        },
        None => {},
    }
    assert(views(items@) =~= message_items(message@, fresh@));
    items
}

fn make_text_item(role: String, content: String) -> (r: Json)
    ensures
        r@ == text_item(role@, content@),
{
    let members = vec![
        ("content".to_owned(), Json::Str(content)),
        ("role".to_owned(), Json::Str(role)),
    ];
    assert(members_view(members@) =~= text_item(role@, content@)->Object_0);
    Json::object(members)
}

fn make_output_item(call_id: String, output: String) -> (r: Json)
    ensures
        r@ == output_item(call_id@, output@),
{
    let members = vec![
        ("call_id".to_owned(), Json::Str(call_id)),
        ("output".to_owned(), Json::Str(output)),
        ("type".to_owned(), Json::text("function_call_output")),
    ];
    assert(members_view(members@) =~= output_item(call_id@, output@)->Object_0);
    Json::object(members)
}

fn make_call_item(call: &OpenAIMessageToolCall) -> (r: Json)
    ensures
        r@ == call_item(call@),
{
    let members = vec![
        ("arguments".to_owned(), Json::text(call.function.arguments.as_str())),
        ("call_id".to_owned(), Json::text(call.id.as_str())),
        ("name".to_owned(), Json::text(call.function.name.as_str())),
        ("type".to_owned(), Json::text("function_call")),
    ];
    assert(members_view(members@) =~= call_item(call@)->Object_0);
    Json::object(members)
}

/// The input that messages give, with the given identifiers for results that have none.
pub fn responses_input_items_with_ids(
    messages: Vec<OpenAIChatMessage>,
    fresh: Vec<String>,
) -> (r: Vec<Json>)
    requires
        fresh@.len() == messages@.len(),
    ensures
        views(r@) == paired_items(messages_items(views(messages@), views(fresh@))),
{
    let ghost all = views(messages@);
    let ghost ids = views(fresh@);
    let mut rest = reversed(messages);
    let mut fresh_rest = reversed(fresh);
    let mut items: Vec<Json> = Vec::new();
    let ghost mut n: int = 0;
    assert(all.take(0) == Seq::<OpenAIChatMessageView>::empty());
    loop
        invariant
            0 <= n,
            all.len() == ids.len(),
            n + rest@.len() == all.len(),
            fresh_rest@.len() == rest@.len(),
            forall|i: int|
                0 <= i < rest@.len() ==> (#[trigger] rest@[i])@ == all[all.len() - 1 - i],
            forall|i: int|
                0 <= i < fresh_rest@.len() ==> (#[trigger] fresh_rest@[i])@ == ids[ids.len() - 1
                    - i],
            views(items@) == messages_items(all.take(n), ids),
        ensures
            views(items@) == messages_items(all, ids),
        decreases rest@.len(),
    {
        match (rest.pop(), fresh_rest.pop()) {
            (Some(message), Some(id)) => {
                assert(all.take(n + 1).drop_last() == all.take(n));
                assert(message@ == all[n] && id@ == ids[n]);
                let ghost before = views(items@);
                let mut more = responses_input_items_from_chat_message(message, id);
                let ghost added = views(more@);
                items.append(&mut more);
                assert(views(items@) =~= before + added);
                proof {
                    n = n + 1;
                }
            },
            _ => {
                assert(all.take(n) == all);
                break;
            },
        }
    }
    retain_paired_function_io(items)
}

/// Whether every one of the identifiers is a fresh one for a tool call.
pub open spec fn fresh_call_ids(ids: Seq<Seq<char>>) -> bool {
    forall|i: int| 0 <= i < ids.len() ==> fresh_id("tool_"@, #[trigger] ids[i])
}

/// Whether items are the input that messages give, with fresh identifiers for results that have
/// none.
pub open spec fn input_of_messages(
    messages: Seq<OpenAIChatMessageView>,
    input: Seq<JsonView>,
) -> bool {
    exists|ids: Seq<Seq<char>>|
        ids.len() == messages.len() && #[trigger] fresh_call_ids(ids) && input == paired_items(
            messages_items(messages, ids),
        )
}

/// Whether a message is no result of a tool call without an identifier.
pub open spec fn named_result(message: OpenAIChatMessageView) -> bool {
    message.role == "tool"@ ==> message.tool_call_id is Some
}

/// Where every result of a tool call has its identifier, the input does not depend on fresh ones.
pub proof fn lemma_named_results_need_no_ids(
    messages: Seq<OpenAIChatMessageView>,
    first: Seq<Seq<char>>,
    second: Seq<Seq<char>>,
)
    requires
        forall|i: int| 0 <= i < messages.len() ==> named_result(#[trigger] messages[i]),
    ensures
        messages_items(messages, first) == messages_items(messages, second),
    decreases messages.len(),
{
    if messages.len() > 0 {
        assert(named_result(messages[messages.len() - 1]));
        assert forall|i: int| 0 <= i < messages.drop_last().len() implies named_result(
            #[trigger] messages.drop_last()[i],
        ) by {
            assert(messages.drop_last()[i] == messages[i]);
        }
        lemma_named_results_need_no_ids(messages.drop_last(), first, second);
    }
}

/// The input that messages give.
pub fn responses_input_items_from_chat_messages(messages: Vec<OpenAIChatMessage>) -> (r: Vec<Json>)
    ensures
        input_of_messages(views(messages@), views(r@)),
{
    let fresh = new_ids("tool_", messages.len());
    assert(fresh_call_ids(views(fresh@)));
    responses_input_items_with_ids(messages, fresh)
}

/// The tool in the form of responses.
pub open spec fn responses_tool(tool: OpenAIToolView) -> OpenAIResponsesToolView {
    OpenAIResponsesToolView {
        kind: "function"@,
        name: tool.function.name,
        description: tool.function.description,
        parameters: tool.function.parameters,
    }
}

impl OpenAIResponsesTool {
    /// The tool in the form of responses.
    pub fn from_openai_tool(tool: OpenAITool) -> (r: Self)
        ensures
            r@ == responses_tool(tool@),
    {
        OpenAIResponsesTool {
            kind: "function".to_owned(),
            name: tool.function.name,
            description: tool.function.description,
            parameters: tool.function.parameters,
        }
    }
}

/// The tools in the form of responses.
pub open spec fn responses_tools(tools: Seq<OpenAIToolView>) -> Seq<OpenAIResponsesToolView> {
    Seq::new(tools.len(), |i: int| responses_tool(tools[i]))
}

/// The tools in the form of responses.
fn to_responses_tools(tools: Vec<OpenAITool>) -> (r: Vec<OpenAIResponsesTool>)
    ensures
        views(r@) == responses_tools(views(tools@)),
{
    let ghost all = views(tools@);
    let mut rest = reversed(tools);
    let mut r: Vec<OpenAIResponsesTool> = Vec::new();
    loop
        invariant
            r@.len() + rest@.len() == all.len(),
            forall|i: int|
                0 <= i < rest@.len() ==> (#[trigger] rest@[i])@ == all[all.len() - 1 - i],
            forall|i: int| 0 <= i < r@.len() ==> (#[trigger] r@[i])@ == responses_tool(all[i]),
        ensures
            r@.len() == all.len(),
            forall|i: int| 0 <= i < r@.len() ==> (#[trigger] r@[i])@ == responses_tool(all[i]),
        decreases rest@.len(),
    {
        match rest.pop() {
            Some(tool) => {
                r.push(OpenAIResponsesTool::from_openai_tool(tool));
            },
            None => {
                break;
            },
        }
    }
    assert(views(r@) =~= responses_tools(all));
    r
}

impl OpenAIResponsesRequest {
    /// The request in the form of responses, with the given identifiers for results that have none.
    pub fn with_ids(chat: OpenAIChatRequest, fresh: Vec<String>) -> (r: Self)
        requires
            fresh@.len() == chat@.messages.len(),
        ensures
            r@ == (OpenAIResponsesRequestView {
                model: chat@.model,
                input: paired_items(messages_items(chat@.messages, views(fresh@))),
                tools: responses_tools(chat@.tools),
                stream: chat.stream,
                store: false,
            }),
    {
        OpenAIResponsesRequest {
            model: chat.model,
            input: responses_input_items_with_ids(chat.messages, fresh),
            tools: to_responses_tools(chat.tools),
            stream: chat.stream,
            store: false,
        }
    }

    /// The request in the form of responses.
    pub fn from_chat_request(chat: OpenAIChatRequest) -> (r: Self)
        ensures
            r@.model == chat@.model,
            input_of_messages(chat@.messages, r@.input),
            r@.tools == responses_tools(chat@.tools),
            r.stream == chat.stream,
            !r.store,
    {
        let fresh = new_ids("tool_", chat.messages.len());
        assert(fresh_call_ids(views(fresh@)));
        OpenAIResponsesRequest::with_ids(chat, fresh)
    }
}

} // verus!
