//! Small things that are done to lists and to optional texts.
use crate::text::{opt_view, text_or_empty, views};
use vstd::prelude::*;

verus! {

/// The last `count` of some items, or all of them where there are fewer.
pub open spec fn last_of<T>(items: Seq<T>, count: int) -> Seq<T> {
    if items.len() > count {
        items.skip(items.len() - count)
    } else {
        items
    }
}

/// The items from the last to the first.
pub fn reversed<T>(items: Vec<T>) -> (r: Vec<T>)
    ensures
        r@ == items@.reverse(),
{
    let mut items = items;
    let ghost all = items@;
    let mut r: Vec<T> = Vec::new();
    loop
        invariant
            items@ == all.take(items@.len() as int),
            items@.len() <= all.len(),
            r@ == all.skip(items@.len() as int).reverse(),
        ensures
            r@ == all.reverse(),
        decreases items@.len(),
    {
        match items.pop() {
            Some(item) => {
                r.push(item);
                assert(items@ =~= all.take(items@.len() as int));
                assert(r@ =~= all.skip(items@.len() as int).reverse());
            },
            None => {
                assert(all.skip(0) == all);
                break;
            },
        }
    }
    r
}

/// A copy of a list of texts.
pub fn copy_texts(texts: &Vec<String>) -> (r: Vec<String>)
    ensures
        views(r@) == views(texts@),
{
    let mut r: Vec<String> = Vec::new();
    let mut i: usize = 0;
    while i < texts.len()
        invariant
            i <= texts.len(),
            r.len() == i,
            forall|k: int| 0 <= k < i ==> (#[trigger] r@[k])@ == texts@[k]@,
        decreases texts.len() - i,
    {
        r.push(texts[i].clone());
        i += 1;
    }
    assert(views(r@) =~= views(texts@));
    r
}

/// A copy of an optional text.
pub fn owned(text: Option<&str>) -> (r: Option<String>)
    ensures
        opt_view(r) == opt_view(text),
{
    match text {
        Some(t) => Some(t.to_owned()),
        None => None,
    }
}

/// The text of an optional string.
pub fn borrowed<'a>(text: &'a Option<String>) -> (r: Option<&'a str>)
    ensures
        opt_view(r) == opt_view(*text),
{
    match text {
        Some(t) => Some(t.as_str()),
        None => None,
    }
}

/// An optional string, or the empty one.
pub fn string_or_empty(text: Option<String>) -> (r: String)
    ensures
        r@ == text_or_empty(opt_view(text)),
{
    match text {
        Some(t) => t,
        None => String::new(),
    }
}

/// An optional text, or the empty one.
pub fn or_empty<'a>(text: Option<&'a str>) -> (r: &'a str)
    ensures
        r@ == text_or_empty(opt_view(text)),
{
    match text {
        Some(t) => t,
        None => {
            proof {
                reveal_strlit("");
                assert(""@ =~= Seq::<char>::empty());
            }
            ""
        },
    }
}

/// The last items are those at the end, in their order; where there are not more, they are all.
pub proof fn lemma_last_items<T>(before: Seq<T>, items: Seq<T>, count: int)
    ensures
        count >= items.len() ==> last_of(items, count) == items,
        last_of(before + items, items.len() as int) == items,
        0 <= count <= items.len() ==> last_of(items, count).len() == count,
        0 <= count <= items.len() ==> last_of(before + items, count) == last_of(items, count),
{
    let all = before + items;
    if before.len() == 0 {
        assert(all =~= items);
    } else {
        assert(all.skip(before.len() as int) =~= items);
    }
    if 0 <= count <= items.len() {
        assert(last_of(all, count) =~= last_of(items, count));
    }
}

} // verus!
