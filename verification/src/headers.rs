//! HTTP headers by name.
use crate::text::{chars_of, opt_view, same};
use vstd::prelude::*;

verus! {

/// Whether a text stands before another, character by character.
pub open spec fn text_before(a: Seq<char>, b: Seq<char>) -> bool
    decreases a.len(),
{
    if b.len() == 0 {
        false
    } else if a.len() == 0 {
        true
    } else if a[0] != b[0] {
        a[0] < b[0]
    } else {
        text_before(a.skip(1), b.skip(1))
    }
}

/// Of two texts, one stands before the other or they are the same.
pub proof fn lemma_before_total(a: Seq<char>, b: Seq<char>)
    ensures
        text_before(a, b) || text_before(b, a) || a == b,
        !(text_before(a, b) && text_before(b, a)),
        !text_before(a, a),
    decreases a.len(),
{
    if a.len() > 0 && b.len() > 0 {
        lemma_before_total(a.skip(1), b.skip(1));
        lemma_before_total(a.skip(1), a.skip(1));
        if a[0] == b[0] && a.skip(1) == b.skip(1) {
            assert(a =~= seq![a[0]] + a.skip(1));
            assert(b =~= seq![b[0]] + b.skip(1));
        }
    } else if a.len() > 0 {
        lemma_before_total(a.skip(1), a.skip(1));
    } else {
        assert(b.len() == 0 ==> a =~= b);
    }
}

/// Whether a text stands before another.
pub fn is_before(a: &str, b: &str) -> (r: bool)
    ensures
        r == text_before(a@, b@),
{
    let left = chars_of(a);
    let right = chars_of(b);
    let mut i: usize = 0;
    assert(left@.skip(0) == a@);
    assert(right@.skip(0) == b@);
    loop
        invariant
            left@ == a@,
            right@ == b@,
            i <= left.len(),
            i <= right.len(),
            text_before(a@, b@) == text_before(left@.skip(i as int), right@.skip(i as int)),
        decreases left.len() - i,
    {
        if i == right.len() {
            return false;
        }
        if i == left.len() {
            return true;
        }
        if left[i] != right[i] {
            return left[i] < right[i];
        }
        assert(left@.skip(i as int).skip(1) == left@.skip(i + 1));
        assert(right@.skip(i as int).skip(1) == right@.skip(i + 1));
        i += 1;
    }
}

/// The headers with `value` under `name`.
pub open spec fn put_header(
    headers: Seq<(Seq<char>, Seq<char>)>,
    name: Seq<char>,
    value: Seq<char>,
) -> Seq<(Seq<char>, Seq<char>)>
    decreases headers.len(),
{
    if headers.len() == 0 {
        seq![(name, value)]
    } else if headers[0].0 == name {
        seq![(name, value)] + headers.skip(1)
    } else if text_before(name, headers[0].0) {
        seq![(name, value)] + headers
    } else {
        seq![headers[0]] + put_header(headers.skip(1), name, value)
    }
}

/// The value under a name.
pub open spec fn header_value(headers: Seq<(Seq<char>, Seq<char>)>, name: Seq<char>) -> Option<
    Seq<char>,
>
    decreases headers.len(),
{
    if headers.len() == 0 {
        None
    } else if headers[0].0 == name {
        Some(headers[0].1)
    } else {
        header_value(headers.skip(1), name)
    }
}

/// The headers with all of the others put into them, in order.
pub open spec fn put_headers(
    headers: Seq<(Seq<char>, Seq<char>)>,
    more: Seq<(Seq<char>, Seq<char>)>,
) -> Seq<(Seq<char>, Seq<char>)>
    decreases more.len(),
{
    if more.len() == 0 {
        headers
    } else {
        put_header(put_headers(headers, more.drop_last()), more.last().0, more.last().1)
    }
}

/// Whether the names of the headers stand in order, each of them once.
pub open spec fn in_order(headers: Seq<(Seq<char>, Seq<char>)>) -> bool
    decreases headers.len(),
{
    headers.len() <= 1 || (text_before(headers[0].0, headers[1].0) && in_order(headers.skip(1)))
}

/// A header that was put is found under its name, and the others stay.
pub proof fn lemma_put_header_reads_back(
    headers: Seq<(Seq<char>, Seq<char>)>,
    name: Seq<char>,
    value: Seq<char>,
    other: Seq<char>,
)
    ensures
        header_value(put_header(headers, name, value), name) == Some(value),
        other != name ==> header_value(put_header(headers, name, value), other) == header_value(
            headers,
            other,
        ),
    decreases headers.len(),
{
    let put = put_header(headers, name, value);
    if headers.len() == 0 {
        assert(put.skip(1) == Seq::<(Seq<char>, Seq<char>)>::empty());
        assert(header_value(put.skip(1), other) is None);
    } else if headers[0].0 == name {
        assert(put.skip(1) == headers.skip(1));
    } else if text_before(name, headers[0].0) {
        assert(put.skip(1) == headers);
    } else {
        lemma_put_header_reads_back(headers.skip(1), name, value, other);
        assert(put.skip(1) == put_header(headers.skip(1), name, value));
    }
}

/// Putting a header keeps the names in order.
pub proof fn lemma_put_header_keeps_order(
    headers: Seq<(Seq<char>, Seq<char>)>,
    name: Seq<char>,
    value: Seq<char>,
)
    requires
        in_order(headers),
    ensures
        in_order(put_header(headers, name, value)),
    decreases headers.len(),
{
    let put = put_header(headers, name, value);
    if headers.len() == 0 {
    } else if headers[0].0 == name {
        assert(put.skip(1) == headers.skip(1));
    } else if text_before(name, headers[0].0) {
        assert(put.skip(1) == headers);
    } else {
        lemma_before_total(name, headers[0].0);
        lemma_put_header_keeps_order(headers.skip(1), name, value);
        assert(put.skip(1) == put_header(headers.skip(1), name, value));
        if headers.len() > 1 {
            assert(headers.skip(1)[0] == headers[1]);
        }
    }
}

/// The value that the last of some headers with a name gives.
pub open spec fn last_value(headers: Seq<(Seq<char>, Seq<char>)>, name: Seq<char>) -> Option<
    Seq<char>,
>
    decreases headers.len(),
{
    if headers.len() == 0 {
        None
    } else if headers.last().0 == name {
        Some(headers.last().1)
    } else {
        last_value(headers.drop_last(), name)
    }
}

/// Where some headers are put, the last of them with a name is found under it; what none of them
/// names stays as it was.
pub proof fn lemma_put_headers_reads_back(
    headers: Seq<(Seq<char>, Seq<char>)>,
    more: Seq<(Seq<char>, Seq<char>)>,
    name: Seq<char>,
)
    ensures
        header_value(put_headers(headers, more), name) == match last_value(more, name) {
            Some(value) => Some(value),
            None => header_value(headers, name),
        },
    decreases more.len(),
{
    if more.len() > 0 {
        let before = put_headers(headers, more.drop_last());
        lemma_put_header_reads_back(before, more.last().0, more.last().1, name);
        lemma_put_headers_reads_back(headers, more.drop_last(), name);
    }
}

/// Putting headers keeps the names in order.
pub proof fn lemma_put_headers_keeps_order(
    headers: Seq<(Seq<char>, Seq<char>)>,
    more: Seq<(Seq<char>, Seq<char>)>,
)
    requires
        in_order(headers),
    ensures
        in_order(put_headers(headers, more)),
    decreases more.len(),
{
    if more.len() > 0 {
        lemma_put_headers_keeps_order(headers, more.drop_last());
        lemma_put_header_keeps_order(
            put_headers(headers, more.drop_last()),
            more.last().0,
            more.last().1,
        );
    }
}

/// The texts of pairs of strings.
pub open spec fn pairs(entries: Seq<(String, String)>) -> Seq<(Seq<char>, Seq<char>)> {
    Seq::new(entries.len(), |i: int| (entries[i].0@, entries[i].1@))
}

/// Puts a value under a name.
fn put_entry(entries: &mut Vec<(String, String)>, name: String, value: String)
    ensures
        pairs(final(entries)@) == put_header(pairs(old(entries)@), name@, value@),
{
    let ghost all = pairs(entries@);
    let mut i: usize = 0;
    assert(all.skip(0) == all);
    assert(all.take(0) + put_header(all, name@, value@) == put_header(all, name@, value@));
    while i < entries.len()
        invariant
            i <= entries.len(),
            pairs(entries@) == all,
            all == pairs(old(entries)@),
            all.take(i as int) + put_header(all.skip(i as int), name@, value@) == put_header(
                all,
                name@,
                value@,
            ),
        decreases entries.len() - i,
    {
        let ghost rest = all.skip(i as int);
        if same(entries[i].0.as_str(), name.as_str()) {
            entries.set(i, (name, value));
            assert(pairs(entries@) =~= all.take(i as int) + (seq![(name@, value@)] + rest.skip(1)));
            return;
        }
        if is_before(name.as_str(), entries[i].0.as_str()) {
            entries.insert(i, (name, value));
            assert(pairs(entries@) =~= all.take(i as int) + (seq![(name@, value@)] + rest));
            return;
        }
        assert(rest.skip(1) == all.skip(i + 1));
        assert(all.take(i + 1) + put_header(rest.skip(1), name@, value@) =~= all.take(i as int) + (
        seq![rest[0]] + put_header(rest.skip(1), name@, value@)));
        i += 1;
    }
    entries.push((name, value));
    assert(pairs(entries@) =~= all.take(i as int) + seq![(name@, value@)]);
}

/// HTTP headers, in the order of their names, each name once. The model is the list of names and
/// values.
#[derive(Debug)]
pub struct Headers {
    entries: Vec<(String, String)>,
}

impl View for Headers {
    type V = Seq<(Seq<char>, Seq<char>)>;

    closed spec fn view(&self) -> Seq<(Seq<char>, Seq<char>)> {
        pairs(self.entries@)
    }
}

impl Headers {
    /// The names stand in order, each of them once.
    #[verifier::type_invariant]
    spec fn well_formed(self) -> bool {
        in_order(self@)
    }

    /// Takes the entries out.
    fn take(&mut self) -> (entries: Vec<(String, String)>)
        ensures
            pairs(entries@) == old(self)@,
            in_order(old(self)@),
    {
        proof {
            use_type_invariant(&*self);
        }
        let mut entries: Vec<(String, String)> = Vec::new();
        std::mem::swap(&mut entries, &mut self.entries);
        entries
    }

    /// No headers.
    pub fn new() -> (r: Self)
        ensures
            r@ == Seq::<(Seq<char>, Seq<char>)>::empty(),
    {
        Headers { entries: Vec::new() }
    }

    /// Puts a value under a name.
    pub fn put(&mut self, name: String, value: String)
        ensures
            final(self)@ == put_header(old(self)@, name@, value@),
            in_order(old(self)@),
            in_order(final(self)@),
    {
        let ghost before = self@;
        let mut entries = self.take();
        let ghost (n, v) = (name@, value@);
        put_entry(&mut entries, name, value);
        proof {
            lemma_put_header_keeps_order(before, n, v);
        }
        self.entries = entries;
    }

    /// Puts all of the other headers.
    pub fn put_all(&mut self, more: &Headers)
        ensures
            final(self)@ == put_headers(old(self)@, more@),
            in_order(old(self)@),
            in_order(final(self)@),
    {
        let ghost before = self@;
        let ghost all = more@;
        let mut entries = self.take();
        let mut i: usize = 0;
        while i < more.entries.len()
            invariant
                i <= more.entries.len(),
                all == more@,
                pairs(entries@) == put_headers(before, all.take(i as int)),
            decreases more.entries.len() - i,
        {
            assert(all.take(i + 1).drop_last() == all.take(i as int));
            put_entry(&mut entries, more.entries[i].0.clone(), more.entries[i].1.clone());
            i += 1;
        }
        assert(all.take(all.len() as int) == all);
        proof {
            lemma_put_headers_keeps_order(before, all);
        }
        self.entries = entries;
    }

    /// The value under a name.
    pub fn get<'a>(&'a self, name: &str) -> (r: Option<&'a str>)
        ensures
            opt_view(r) == header_value(self@, name@),
    {
        let ghost all = self@;
        let mut i: usize = 0;
        assert(all.skip(0) == all);
        while i < self.entries.len()
            invariant
                i <= self.entries.len(),
                self@ == all,
                header_value(all.skip(i as int), name@) == header_value(all, name@),
            decreases self.entries.len() - i,
        {
            assert(all.skip(i as int).skip(1) == all.skip(i + 1));
            if same(self.entries[i].0.as_str(), name) {
                return Some(self.entries[i].1.as_str());
            }
            i += 1;
        }
        None
    }

    /// The names and values, in order.
    pub fn entries(&self) -> (r: &Vec<(String, String)>)
        ensures
            pairs(r@) == self@,
            in_order(self@),
    {
        proof {
            use_type_invariant(self);
        }
        &self.entries
    }
}

/// Texts are ordered by the first character in which they differ; a text comes before every longer
/// one that starts with it, and never before itself.
pub proof fn lemma_order_of_texts(
    start: Seq<char>,
    x: char,
    y: char,
    a: Seq<char>,
    b: Seq<char>,
)
    ensures
        x != y ==> text_before(start + seq![x] + a, start + seq![y] + b) == (x < y),
        text_before(start, start + seq![y] + b),
        !text_before(start + seq![y] + b, start),
        !text_before(start, start),
    decreases start.len(),
{
    let left = start + seq![x] + a;
    let right = start + seq![y] + b;
    if start.len() > 0 {
        let rest = start.skip(1);
        lemma_order_of_texts(rest, x, y, a, b);
        assert(left.skip(1) =~= rest + seq![x] + a);
        assert(right.skip(1) =~= rest + seq![y] + b);
        assert(left[0] == start[0]);
        assert(right[0] == start[0]);
    } else {
        assert(left[0] == x);
        assert(right[0] == y);
    }
}

} // verus!
