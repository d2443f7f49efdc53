//! Text as sequences of characters: the string operations that the rest of the library is
//! written with, each with its meaning as a function on `Seq<char>`.
use vstd::prelude::*;

verus! {

/// Appends one character to the end of a string (`String::push`).
pub assume_specification[ String::push ](s: &mut String, c: char)
    ensures
        final(s)@ == old(s)@.push(c),
;

// ---------------------------------------------------------------------------------------------
// Views of what containers hold
// ---------------------------------------------------------------------------------------------
/// The views of a sequence of values.
pub open spec fn views<T: View>(values: Seq<T>) -> Seq<T::V> {
    Seq::new(values.len(), |i: int| values[i]@)
}

/// The view of an optional value.
pub open spec fn opt_view<T: View>(value: Option<T>) -> Option<T::V> {
    match value {
        Some(v) => Some(v@),
        None => None,
    }
}

/// The views of a sequence of optional values.
pub open spec fn opt_views<T: View>(values: Seq<Option<T>>) -> Seq<Option<T::V>> {
    Seq::new(values.len(), |i: int| opt_view(values[i]))
}

/// The views of an optional sequence of values.
pub open spec fn views_opt<T: View>(values: Option<Vec<T>>) -> Option<Seq<T::V>> {
    match values {
        Some(v) => Some(views(v@)),
        None => None,
    }
}

/// The view of the value or of the error of a result.
pub open spec fn res_view<T: View, E: View>(result: Result<T, E>) -> Result<T::V, E::V> {
    match result {
        Ok(v) => Ok(v@),
        Err(e) => Err(e@),
    }
}

/// The text of an optional string, or the empty text.
pub open spec fn text_or_empty(value: Option<Seq<char>>) -> Seq<char> {
    match value {
        Some(s) => s,
        None => Seq::empty(),
    }
}

// ---------------------------------------------------------------------------------------------
// Classes of characters
// ---------------------------------------------------------------------------------------------
/// A class of characters.
#[derive(Clone, Copy)]
pub enum CharClass {
    /// The characters with the Unicode property `White_Space`.
    White,
    /// One character.
    Is(char),
    /// Carriage return and line feed.
    LineBreak,
    /// Everything but the ASCII letters and digits.
    NotAlphanumeric,
    /// Everything but the ASCII letters and digits, `_` and `-`.
    NotWord,
}

/// The ASCII letters and digits.
pub open spec fn ascii_alphanumeric(c: char) -> bool {
    ('a' <= c <= 'z') || ('A' <= c <= 'Z') || ('0' <= c <= '9')
}

/// The characters with the Unicode property `White_Space`.
pub open spec fn white(c: char) -> bool {
    ||| '\u{9}' <= c <= '\u{d}'
    ||| c == ' '
    ||| c == '\u{85}'
    ||| c == '\u{a0}'
    ||| c == '\u{1680}'
    ||| '\u{2000}' <= c <= '\u{200a}'
    ||| c == '\u{2028}'
    ||| c == '\u{2029}'
    ||| c == '\u{202f}'
    ||| c == '\u{205f}'
    ||| c == '\u{3000}'
}

impl CharClass {
    /// Whether the class holds `c`.
    pub open spec fn has(self, c: char) -> bool {
        match self {
            CharClass::White => white(c),
            CharClass::Is(one) => c == one,
            CharClass::LineBreak => c == '\r' || c == '\n',
            CharClass::NotAlphanumeric => !ascii_alphanumeric(c),
            CharClass::NotWord => !ascii_alphanumeric(c) && c != '_' && c != '-',
        }
    }

    /// Whether the class holds `c`.
    pub fn test(self, c: char) -> (r: bool)
        ensures
            r == self.has(c),
    {
        match self {
            CharClass::White => is_white(c),
            CharClass::Is(one) => c == one,
            CharClass::LineBreak => c == '\r' || c == '\n',
            CharClass::NotAlphanumeric => !is_ascii_alphanumeric(c),
            CharClass::NotWord => !is_ascii_alphanumeric(c) && c != '_' && c != '-',
        }
    }
}

/// Whether `c` is an ASCII letter or digit.
pub fn is_ascii_alphanumeric(c: char) -> (r: bool)
    ensures
        r == ascii_alphanumeric(c),
{
    ('a' <= c && c <= 'z') || ('A' <= c && c <= 'Z') || ('0' <= c && c <= '9')
}

/// Whether `c` has the Unicode property `White_Space`.
pub fn is_white(c: char) -> (r: bool)
    ensures
        r == white(c),
{
    ('\u{9}' <= c && c <= '\u{d}') || c == ' ' || c == '\u{85}' || c == '\u{a0}' || c == '\u{1680}'
        || ('\u{2000}' <= c && c <= '\u{200a}') || c == '\u{2028}' || c == '\u{2029}' || c
        == '\u{202f}' || c == '\u{205f}' || c == '\u{3000}'
}

// ---------------------------------------------------------------------------------------------
// Between strings and their characters
// ---------------------------------------------------------------------------------------------
/// The characters of a string.
pub fn chars_of(s: &str) -> (chars: Vec<char>)
    ensures
        chars@ == s@,
{
    let mut chars: Vec<char> = Vec::new();
    for c in it: s.chars()
        invariant
            it.seq() == s@,
            chars@ == s@.take(it.index()),
    {
        chars.push(c);
    }
    assert(s@.take(s@.len() as int) == s@);
    chars
}

/// The string made of some characters.
pub fn string_of(chars: &Vec<char>) -> (s: String)
    ensures
        s@ == chars@,
{
    let mut s = String::new();
    let mut i: usize = 0;
    while i < chars.len()
        invariant
            i <= chars.len(),
            s@ == chars@.take(i as int),
        decreases chars.len() - i,
    {
        s.push(chars[i]);
        i += 1;
    }
    assert(chars@.take(chars@.len() as int) == chars@);
    s
}

/// Whether two strings are equal.
pub fn same(a: &str, b: &str) -> (r: bool)
    ensures
        r == (a@ == b@),
{
    a.to_owned() == b.to_owned()
}


// ---------------------------------------------------------------------------------------------
// Trimming
// ---------------------------------------------------------------------------------------------
/// `s` without its longest prefix of characters of the class.
pub open spec fn trim_start_of(s: Seq<char>, class: CharClass) -> Seq<char>
    decreases s.len(),
{
    if s.len() > 0 && class.has(s[0]) {
        trim_start_of(s.skip(1), class)
    } else {
        s
    }
}

/// `s` without its longest suffix of characters of the class.
pub open spec fn trim_end_of(s: Seq<char>, class: CharClass) -> Seq<char>
    decreases s.len(),
{
    if s.len() > 0 && class.has(s.last()) {
        trim_end_of(s.drop_last(), class)
    } else {
        s
    }
}

/// `s` without the characters of the class at its two ends.
pub open spec fn trimmed_of(s: Seq<char>, class: CharClass) -> Seq<char> {
    trim_end_of(trim_start_of(s, class), class)
}

/// `s` without the white space at its two ends.
pub open spec fn trimmed(s: Seq<char>) -> Seq<char> {
    trimmed_of(s, CharClass::White)
}

/// Whether nothing but white space is in `s`.
pub open spec fn blank(s: Seq<char>) -> bool {
    forall|i: int| 0 <= i < s.len() ==> white(#[trigger] s[i])
}

/// Trimming leaves nothing exactly where there is nothing but white space.
pub proof fn lemma_trimmed_blank(s: Seq<char>)
    ensures
        trimmed(s).len() == 0 <==> blank(s),
    decreases s.len(),
{
    lemma_trim_start_blank(s);
    let t = trim_start_of(s, CharClass::White);
    lemma_trim_end_keeps_first(t);
}

proof fn lemma_trim_start_blank(s: Seq<char>)
    ensures
        trim_start_of(s, CharClass::White).len() == 0 <==> blank(s),
        trim_start_of(s, CharClass::White).len() > 0 ==> !white(
            trim_start_of(s, CharClass::White)[0],
        ),
    decreases s.len(),
{
    if s.len() > 0 && white(s[0]) {
        lemma_trim_start_blank(s.skip(1));
        if blank(s.skip(1)) {
            assert forall|i: int| 0 <= i < s.len() implies white(#[trigger] s[i]) by {
                if i > 0 {
                    assert(s[i] == s.skip(1)[i - 1]);
                }
            }
        } else {
            let i = choose|i: int| 0 <= i < s.skip(1).len() && !white(#[trigger] s.skip(1)[i]);
            assert(!white(s[i + 1]));
        }
    }
}

proof fn lemma_trim_end_keeps_first(s: Seq<char>)
    requires
        s.len() > 0 ==> !white(s[0]),
    ensures
        s.len() > 0 ==> trim_end_of(s, CharClass::White).len() > 0,
    decreases s.len(),
{
    if s.len() > 1 && white(s.last()) {
        lemma_trim_end_keeps_first(s.drop_last());
    }
}

/// Where the prefix of characters of the class ends.
fn trim_start_index(chars: &Vec<char>, class: CharClass) -> (i: usize)
    ensures
        i <= chars.len(),
        chars@.skip(i as int) == trim_start_of(chars@, class),
{
    let mut i: usize = 0;
    assert(chars@.skip(0) == chars@);
    while i < chars.len() && class.test(chars[i])
        invariant
            i <= chars.len(),
            trim_start_of(chars@.skip(i as int), class) == trim_start_of(chars@, class),
        decreases chars.len() - i,
    {
        assert(chars@.skip(i as int).skip(1) == chars@.skip(i + 1));
        i += 1;
    }
    i
}

/// Where the suffix of characters of the class begins, counted from `from` on.
fn trim_end_index(chars: &Vec<char>, from: usize, class: CharClass) -> (j: usize)
    requires
        from <= chars.len(),
    ensures
        from <= j <= chars.len(),
        chars@.subrange(from as int, j as int) == trim_end_of(chars@.skip(from as int), class),
{
    let mut j: usize = chars.len();
    assert(chars@.subrange(from as int, j as int) == chars@.skip(from as int));
    while j > from && class.test(chars[j - 1])
        invariant
            from <= j <= chars.len(),
            trim_end_of(chars@.subrange(from as int, j as int), class) == trim_end_of(
                chars@.skip(from as int),
                class,
            ),
        decreases j,
    {
        assert(chars@.subrange(from as int, j as int).drop_last() == chars@.subrange(
            from as int,
            j - 1,
        ));
        j -= 1;
    }
    j
}

/// Cuts the characters of the class off both ends.
pub fn trim_class<'a>(s: &'a str, class: CharClass) -> (r: &'a str)
    ensures
        r@ == trimmed_of(s@, class),
{
    let chars = chars_of(s);
    let i = trim_start_index(&chars, class);
    let j = trim_end_index(&chars, i, class);
    s.substring_char(i, j)
}

/// Cuts the characters of the class off the start.
pub fn trim_start_class<'a>(s: &'a str, class: CharClass) -> (r: &'a str)
    ensures
        r@ == trim_start_of(s@, class),
{
    let chars = chars_of(s);
    let i = trim_start_index(&chars, class);
    assert(chars@.subrange(i as int, chars@.len() as int) == chars@.skip(i as int));
    s.substring_char(i, chars.len())
}

/// Cuts the characters of the class off the end.
pub fn trim_end_class<'a>(s: &'a str, class: CharClass) -> (r: &'a str)
    ensures
        r@ == trim_end_of(s@, class),
{
    let chars = chars_of(s);
    let j = trim_end_index(&chars, 0, class);
    assert(chars@.skip(0) == chars@);
    s.substring_char(0, j)
}

/// Cuts the white space off both ends.
pub fn trim<'a>(s: &'a str) -> (r: &'a str)
    ensures
        r@ == trimmed(s@),
{
    trim_class(s, CharClass::White)
}

/// Whether nothing but white space is in the string.
pub fn is_blank(s: &str) -> (r: bool)
    ensures
        r == blank(s@),
{
    proof {
        lemma_trimmed_blank(s@);
    }
    trim(s).is_empty()
}

// ---------------------------------------------------------------------------------------------
// Prefixes, suffixes and occurrences
// ---------------------------------------------------------------------------------------------
/// Whether `s` starts with `prefix`.
pub open spec fn has_prefix(s: Seq<char>, prefix: Seq<char>) -> bool {
    prefix.len() <= s.len() && s.take(prefix.len() as int) == prefix
}

/// Whether `s` ends with `suffix`.
pub open spec fn has_suffix(s: Seq<char>, suffix: Seq<char>) -> bool {
    suffix.len() <= s.len() && s.skip(s.len() - suffix.len()) == suffix
}

/// Whether `part` stands in `s` at index `i`.
pub open spec fn stands_at(s: Seq<char>, part: Seq<char>, i: int) -> bool {
    0 <= i && i + part.len() <= s.len() && s.subrange(i, i + part.len()) == part
}

/// Whether `part` stands anywhere in `s`.
pub open spec fn holds_text(s: Seq<char>, part: Seq<char>) -> bool {
    exists|i: int| stands_at(s, part, i)
}

/// The first index at which `part` stands in `s`, from index `from` on.
pub open spec fn find_from(s: Seq<char>, part: Seq<char>, from: int) -> Option<int>
    decreases s.len() + 1 - from,
{
    if from < 0 || from + part.len() > s.len() {
        None
    } else if stands_at(s, part, from) {
        Some(from)
    } else {
        find_from(s, part, from + 1)
    }
}

/// The first index at which `part` stands in `s`.
pub open spec fn found(s: Seq<char>, part: Seq<char>) -> Option<int> {
    find_from(s, part, 0)
}

/// `found` gives the least index at which the part stands, and nothing where it stands nowhere.
pub proof fn lemma_find_from(s: Seq<char>, part: Seq<char>, from: int)
    requires
        0 <= from,
    ensures
        find_from(s, part, from) matches Some(i) ==> from <= i && stands_at(s, part, i),
        find_from(s, part, from) matches Some(i) ==> forall|j: int|
            from <= j < i ==> !#[trigger] stands_at(s, part, j),
        find_from(s, part, from) is None ==> forall|j: int|
            from <= j ==> !#[trigger] stands_at(s, part, j),
    decreases s.len() + 1 - from,
{
    if from + part.len() > s.len() {
    } else if stands_at(s, part, from) {
    } else {
        lemma_find_from(s, part, from + 1);
    }
}

/// A part is found exactly where the text holds it.
pub proof fn lemma_found(s: Seq<char>, part: Seq<char>)
    ensures
        found(s, part) is Some <==> holds_text(s, part),
        found(s, part) matches Some(i) ==> stands_at(s, part, i),
        found(s, part) matches Some(i) ==> forall|j: int|
            0 <= j < i ==> !#[trigger] stands_at(s, part, j),
{
    lemma_find_from(s, part, 0);
}

/// Whether `part` stands in `chars` at index `i`.
fn stands_here(chars: &Vec<char>, part: &Vec<char>, i: usize) -> (r: bool)
    requires
        i + part.len() <= chars.len(),
    ensures
        r == stands_at(chars@, part@, i as int),
{
    let mut k: usize = 0;
    while k < part.len()
        invariant
            k <= part.len(),
            i + part.len() <= chars.len(),
            forall|m: int| 0 <= m < k ==> #[trigger] part@[m] == chars@[i + m],
        decreases part.len() - k,
    {
        if chars[i + k] != part[k] {
            assert(chars@.subrange(i as int, i + part@.len())[k as int] != part@[k as int]);
            return false;
        }
        k += 1;
    }
    assert(chars@.subrange(i as int, i + part@.len()) == part@);
    true
}

/// The first index at which `part` stands in `chars`.
fn find_chars(chars: &Vec<char>, part: &Vec<char>) -> (r: Option<usize>)
    ensures
        r matches Some(i) ==> found(chars@, part@) == Some(i as int) && i + part.len()
            <= chars.len(),
        r is None ==> found(chars@, part@) is None,
{
    let mut i: usize = 0;
    if part.len() > chars.len() {
        return None;
    }
    let last = chars.len() - part.len();
    while i <= last
        invariant
            last == chars.len() - part.len(),
            i <= last + 1,
            found(chars@, part@) == find_from(chars@, part@, i as int),
        decreases last + 1 - i,
    {
        if stands_here(chars, part, i) {
            return Some(i);
        }
        if i == last {
            assert(find_from(chars@, part@, i + 1) is None);
            return None;
        }
        i += 1;
    }
    None
}

/// The first index, in characters, at which `part` stands in `s`.
pub fn find(s: &str, part: &str) -> (r: Option<usize>)
    ensures
        r matches Some(i) ==> found(s@, part@) == Some(i as int) && i + part@.len() <= s@.len(),
        r is None ==> found(s@, part@) is None,
{
    let chars = chars_of(s);
    let part = chars_of(part);
    find_chars(&chars, &part)
}

/// Whether `part` stands in `s`.
pub fn contains(s: &str, part: &str) -> (r: bool)
    ensures
        r == holds_text(s@, part@),
{
    proof {
        lemma_found(s@, part@);
    }
    find(s, part).is_some()
}

/// Whether the character stands in `s`.
pub fn contains_char(s: &str, c: char) -> (r: bool)
    ensures
        r == s@.contains(c),
{
    let chars = chars_of(s);
    let mut i: usize = 0;
    while i < chars.len()
        invariant
            chars@ == s@,
            i <= chars.len(),
            forall|k: int| 0 <= k < i ==> chars@[k] != c,
        decreases chars.len() - i,
    {
        if chars[i] == c {
            assert(chars@[i as int] == c);
            return true;
        }
        i += 1;
    }
    false
}

/// Whether `s` starts with `prefix`.
pub fn starts_with(s: &str, prefix: &str) -> (r: bool)
    ensures
        r == has_prefix(s@, prefix@),
{
    let chars = chars_of(s);
    let part = chars_of(prefix);
    if part.len() > chars.len() {
        return false;
    }
    assert(chars@.subrange(0, part@.len() as int) == chars@.take(part@.len() as int));
    stands_here(&chars, &part, 0)
}

/// Whether `s` ends with `suffix`.
pub fn ends_with(s: &str, suffix: &str) -> (r: bool)
    ensures
        r == has_suffix(s@, suffix@),
{
    let chars = chars_of(s);
    let part = chars_of(suffix);
    if part.len() > chars.len() {
        return false;
    }
    let i = chars.len() - part.len();
    assert(chars@.subrange(i as int, i + part@.len()) == chars@.skip(i as int));
    stands_here(&chars, &part, i)
}

/// What follows `prefix` in `s`, where `s` starts with it.
pub fn strip_prefix<'a>(s: &'a str, prefix: &str) -> (r: Option<&'a str>)
    ensures
        r is Some <==> has_prefix(s@, prefix@),
        r matches Some(rest) ==> rest@ == s@.skip(prefix@.len() as int),
{
    if starts_with(s, prefix) {
        let n = prefix.unicode_len();
        let len = s.unicode_len();
        assert(s@.subrange(n as int, len as int) == s@.skip(n as int));
        Some(s.substring_char(n, len))
    } else {
        None
    }
}

/// What precedes `suffix` in `s`, where `s` ends with it.
pub fn strip_suffix<'a>(s: &'a str, suffix: &str) -> (r: Option<&'a str>)
    ensures
        r is Some <==> has_suffix(s@, suffix@),
        r matches Some(rest) ==> rest@ == s@.take(s@.len() - suffix@.len()),
{
    if ends_with(s, suffix) {
        let n = suffix.unicode_len();
        let len = s.unicode_len();
        assert(s@.subrange(0, len - n) == s@.take(len - n));
        Some(s.substring_char(0, len - n))
    } else {
        None
    }
}

/// `s` without the copies of `prefix` that it starts with.
pub open spec fn without_prefixes(s: Seq<char>, prefix: Seq<char>) -> Seq<char>
    decreases s.len(),
{
    if prefix.len() > 0 && has_prefix(s, prefix) {
        without_prefixes(s.skip(prefix.len() as int), prefix)
    } else {
        s
    }
}

/// Cuts off the copies of `prefix` that `s` starts with.
pub fn strip_prefixes<'a>(s: &'a str, prefix: &str) -> (r: &'a str)
    requires
        prefix@.len() > 0,
    ensures
        r@ == without_prefixes(s@, prefix@),
{
    let mut rest: &'a str = s;
    loop
        invariant
            prefix@.len() > 0,
            without_prefixes(rest@, prefix@) == without_prefixes(s@, prefix@),
        decreases rest@.len(),
    {
        match strip_prefix(rest, prefix) {
            Some(shorter) => {
                rest = shorter;
            },
            None => {
                return rest;
            },
        }
    }
}

// ---------------------------------------------------------------------------------------------
// Splitting
// ---------------------------------------------------------------------------------------------
/// The first index of a character of the class.
pub open spec fn first_of(s: Seq<char>, class: CharClass) -> Option<int>
    decreases s.len(),
{
    if s.len() == 0 {
        None
    } else if class.has(s[0]) {
        Some(0)
    } else {
        match first_of(s.skip(1), class) {
            Some(i) => Some(i + 1),
            None => None,
        }
    }
}

/// `first_of` gives the least index at which a character of the class stands.
pub proof fn lemma_first_of(s: Seq<char>, class: CharClass)
    ensures
        first_of(s, class) matches Some(i) ==> 0 <= i < s.len() && class.has(s[i]),
        first_of(s, class) matches Some(i) ==> forall|j: int|
            0 <= j < i ==> !class.has(#[trigger] s[j]),
        first_of(s, class) is None ==> forall|j: int|
            0 <= j < s.len() ==> !class.has(#[trigger] s[j]),
    decreases s.len(),
{
    if s.len() > 0 && !class.has(s[0]) {
        let rest = s.skip(1);
        lemma_first_of(rest, class);
        match first_of(rest, class) {
            Some(i) => {
                assert(s[i + 1] == rest[i]);
                assert forall|j: int| 0 <= j < i + 1 implies !class.has(#[trigger] s[j]) by {
                    if j > 0 {
                        assert(s[j] == rest[j - 1]);
                    }
                }
            },
            None => {
                assert forall|j: int| 0 <= j < s.len() implies !class.has(#[trigger] s[j]) by {
                    if j > 0 {
                        assert(s[j] == rest[j - 1]);
                    }
                }
            },
        }
    }
}

/// The first index of a character of the class, from `from` on.
fn first_index(chars: &Vec<char>, from: usize, class: CharClass) -> (r: Option<usize>)
    requires
        from <= chars.len(),
    ensures
        r matches Some(i) ==> from <= i < chars.len() && first_of(chars@.skip(from as int), class)
            == Some(i - from),
        r is None ==> first_of(chars@.skip(from as int), class) is None,
{
    let mut i: usize = from;
    let ghost rest = chars@.skip(from as int);
    proof {
        lemma_first_of(rest, class);
    }
    while i < chars.len()
        invariant
            from <= i <= chars.len(),
            rest == chars@.skip(from as int),
            forall|k: int| 0 <= k < i - from ==> !class.has(#[trigger] rest[k]),
            first_of(rest, class) matches Some(n) ==> 0 <= n < rest.len() && class.has(rest[n]),
            first_of(rest, class) matches Some(n) ==> forall|k: int|
                0 <= k < n ==> !class.has(#[trigger] rest[k]),
            first_of(rest, class) is None ==> forall|k: int|
                0 <= k < rest.len() ==> !class.has(#[trigger] rest[k]),
        decreases chars.len() - i,
    {
        assert(rest[i - from] == chars@[i as int]);
        if class.test(chars[i]) {
            return Some(i);
        }
        i += 1;
    }
    None
}

/// `line` without the carriage return at its end.
pub open spec fn without_cr(line: Seq<char>) -> Seq<char> {
    if line.len() > 0 && line.last() == '\r' {
        line.drop_last()
    } else {
        line
    }
}

/// The lines of a text. A line ends with a line feed, or with a carriage return and a line feed;
/// the last line needs no end.
pub open spec fn lines_of(s: Seq<char>) -> Seq<Seq<char>>
    decreases s.len(),
    via lines_of_decreases
{
    if s.len() == 0 {
        Seq::empty()
    } else {
        match first_of(s, CharClass::Is('\n')) {
            Some(i) => seq![without_cr(s.take(i))] + lines_of(s.skip(i + 1)),
            None => seq![s],
        }
    }
}

#[via_fn]
proof fn lines_of_decreases(s: Seq<char>) {
    lemma_first_of(s, CharClass::Is('\n'));
}

/// The lines of a text.
pub fn lines(s: &str) -> (r: Vec<String>)
    ensures
        views(r@) == lines_of(s@),
{
    let chars = chars_of(s);
    let mut r: Vec<String> = Vec::new();
    let mut start: usize = 0;
    assert(chars@.skip(0) == chars@);
    assert(views(r@) + lines_of(chars@) =~= lines_of(s@));
    while start < chars.len()
        invariant
            chars@ == s@,
            start <= chars.len(),
            views(r@) + lines_of(chars@.skip(start as int)) == lines_of(s@),
        decreases chars.len() - start,
    {
        let ghost rest = chars@.skip(start as int);
        let ghost before = r@;
        match first_index(&chars, start, CharClass::Is('\n')) {
            Some(i) => {
                let mut end: usize = i;
                if end > start && chars[end - 1] == '\r' {
                    end -= 1;
                }
                let line = s.substring_char(start, end).to_owned();
                assert(rest.take(i - start) == chars@.subrange(start as int, i as int));
                assert(line@ == without_cr(rest.take(i - start)));
                r.push(line);
                assert(rest.skip(i - start + 1) == chars@.skip(i + 1));
                assert(views(r@) == views(before).push(line@));
                assert(views(r@) + lines_of(chars@.skip(i + 1)) =~= views(before) + (seq![line@]
                    + lines_of(chars@.skip(i + 1))));
                start = i + 1;
            },
            None => {
                let line = s.substring_char(start, chars.len()).to_owned();
                assert(line@ == rest);
                r.push(line);
                assert(views(r@) == views(before).push(line@));
                assert(views(r@) =~= views(before) + lines_of(rest));
                assert(chars@.skip(chars@.len() as int) =~= Seq::<char>::empty());
                assert(views(r@) + lines_of(chars@.skip(chars@.len() as int)) =~= views(r@));
                start = chars.len();
            },
        }
    }
    assert(chars@.skip(start as int) =~= Seq::<char>::empty());
    assert(views(r@) + lines_of(chars@.skip(start as int)) =~= views(r@));
    r
}

/// The words of a text: its longest runs without white space.
pub open spec fn words_of(s: Seq<char>) -> Seq<Seq<char>>
    decreases s.len(),
    via words_of_decreases
{
    let rest = trim_start_of(s, CharClass::White);
    if rest.len() == 0 {
        Seq::empty()
    } else {
        match first_of(rest, CharClass::White) {
            Some(i) => seq![rest.take(i)] + words_of(rest.skip(i)),
            None => seq![rest],
        }
    }
}

#[via_fn]
proof fn words_of_decreases(s: Seq<char>) {
    let rest = trim_start_of(s, CharClass::White);
    lemma_trim_start_blank(s);
    lemma_trim_start_len(s, CharClass::White);
    lemma_first_of(rest, CharClass::White);
}

proof fn lemma_trim_start_len(s: Seq<char>, class: CharClass)
    ensures
        trim_start_of(s, class).len() <= s.len(),
    decreases s.len(),
{
    if s.len() > 0 && class.has(s[0]) {
        lemma_trim_start_len(s.skip(1), class);
    }
}

/// The words of a text.
pub fn split_whitespace(s: &str) -> (r: Vec<String>)
    ensures
        views(r@) == words_of(s@),
{
    let mut r: Vec<String> = Vec::new();
    let mut rest: &str = s;
    assert(views(r@) + words_of(s@) =~= words_of(s@));
    loop
        invariant
            views(r@) + words_of(rest@) == words_of(s@),
        decreases rest@.len(),
    {
        let ghost before = r@;
        proof {
            lemma_trim_start_blank(rest@);
            lemma_trim_start_len(rest@, CharClass::White);
        }
        let tail = trim_start_class(rest, CharClass::White);
        let chars = chars_of(tail);
        if chars.len() == 0 {
            assert(views(r@) + words_of(rest@) =~= views(r@));
            return r;
        }
        assert(chars@.skip(0) == chars@);
        proof {
            lemma_first_of(chars@, CharClass::White);
        }
        match first_index(&chars, 0, CharClass::White) {
            Some(i) => {
                let word = tail.substring_char(0, i).to_owned();
                assert(word@ == tail@.take(i as int));
                r.push(word);
                assert(views(r@) == views(before).push(word@));
                let next = tail.substring_char(i, chars.len());
                assert(next@ == tail@.skip(i as int));
                assert(views(r@) + words_of(next@) =~= views(before) + (seq![word@] + words_of(
                    next@,
                )));
                rest = next;
            },
            None => {
                let word = tail.to_owned();
                r.push(word);
                assert(views(r@) == views(before).push(word@));
                assert(views(r@) =~= views(before) + words_of(rest@));
                return r;
            },
        }
    }
}

/// No line holds a line feed.
pub proof fn lemma_lines_hold_no_line_feed(s: Seq<char>)
    ensures
        forall|i: int| 0 <= i < lines_of(s).len() ==> !(#[trigger] lines_of(s)[i]).contains('\n'),
    decreases s.len(),
{
    let class = CharClass::Is('\n');
    lemma_first_of(s, class);
    if s.len() > 0 {
        match first_of(s, class) {
            Some(i) => {
                let rest = s.skip(i + 1);
                lemma_lines_hold_no_line_feed(rest);
                let first = without_cr(s.take(i));
                assert forall|k: int| 0 <= k < first.len() implies first[k] != '\n' by {
                    assert(first[k] == s[k]);
                    assert(!class.has(s[k]));
                }
                assert forall|k: int| 0 <= k < lines_of(s).len() implies !(
                #[trigger] lines_of(s)[k]).contains('\n') by {
                    if k > 0 {
                        assert(lines_of(s)[k] == lines_of(rest)[k - 1]);
                    }
                }
            },
            None => {
                assert forall|k: int| 0 <= k < s.len() implies s[k] != '\n' by {
                    assert(!class.has(s[k]));
                }
            },
        }
    }
}

/// Trimming adds no character.
pub proof fn lemma_trimming_adds_nothing(s: Seq<char>, class: CharClass, c: char)
    requires
        !s.contains(c),
    ensures
        !trim_start_of(s, class).contains(c),
        !trim_end_of(s, class).contains(c),
        !trimmed_of(s, class).contains(c),
    decreases s.len(),
{
    lemma_trim_start_adds_nothing(s, class, c);
    lemma_trim_end_adds_nothing(s, class, c);
    lemma_trim_end_adds_nothing(trim_start_of(s, class), class, c);
}

proof fn lemma_trim_start_adds_nothing(s: Seq<char>, class: CharClass, c: char)
    requires
        !s.contains(c),
    ensures
        !trim_start_of(s, class).contains(c),
    decreases s.len(),
{
    if s.len() > 0 && class.has(s[0]) {
        assert(!s.skip(1).contains(c)) by {
            assert forall|k: int| 0 <= k < s.skip(1).len() implies s.skip(1)[k] != c by {
                assert(s.skip(1)[k] == s[k + 1]);
            }
        }
        lemma_trim_start_adds_nothing(s.skip(1), class, c);
    }
}

proof fn lemma_trim_end_adds_nothing(s: Seq<char>, class: CharClass, c: char)
    requires
        !s.contains(c),
    ensures
        !trim_end_of(s, class).contains(c),
    decreases s.len(),
{
    if s.len() > 0 && class.has(s.last()) {
        assert(!s.drop_last().contains(c)) by {
            assert forall|k: int| 0 <= k < s.drop_last().len() implies s.drop_last()[k] != c by {
                assert(s.drop_last()[k] == s[k]);
            }
        }
        lemma_trim_end_adds_nothing(s.drop_last(), class, c);
    }
}

/// The pieces of a text between the characters of a class.
pub open spec fn pieces_of(s: Seq<char>, class: CharClass) -> Seq<Seq<char>>
    decreases s.len(),
    via pieces_of_decreases
{
    match first_of(s, class) {
        Some(i) => seq![s.take(i)] + pieces_of(s.skip(i + 1), class),
        None => seq![s],
    }
}

#[via_fn]
proof fn pieces_of_decreases(s: Seq<char>, class: CharClass) {
    lemma_first_of(s, class);
}

/// The pieces of a text between the characters of a class.
pub fn split_class(s: &str, class: CharClass) -> (r: Vec<String>)
    ensures
        views(r@) == pieces_of(s@, class),
        r@.len() > 0,
{
    let chars = chars_of(s);
    let mut r: Vec<String> = Vec::new();
    let mut start: usize = 0;
    assert(chars@.skip(0) == chars@);
    assert(views(r@) + pieces_of(chars@, class) =~= pieces_of(s@, class));
    loop
        invariant
            chars@ == s@,
            start <= chars.len(),
            views(r@) + pieces_of(chars@.skip(start as int), class) == pieces_of(s@, class),
        decreases chars.len() - start,
    {
        let ghost rest = chars@.skip(start as int);
        let ghost before = r@;
        match first_index(&chars, start, class) {
            Some(i) => {
                let piece = s.substring_char(start, i).to_owned();
                assert(piece@ == rest.take(i - start));
                r.push(piece);
                assert(rest.skip(i - start + 1) == chars@.skip(i + 1));
                assert(views(r@) == views(before).push(piece@));
                assert(views(r@) + pieces_of(chars@.skip(i + 1), class) =~= views(before) + (
                seq![piece@] + pieces_of(chars@.skip(i + 1), class)));
                start = i + 1;
            },
            None => {
                let piece = s.substring_char(start, chars.len()).to_owned();
                assert(piece@ == rest);
                r.push(piece);
                assert(views(r@) == views(before).push(piece@));
                assert(views(r@) =~= views(before) + pieces_of(rest, class));
                return r;
            },
        }
    }
}

// ---------------------------------------------------------------------------------------------
// Joining, folding of case, numbers
// ---------------------------------------------------------------------------------------------
/// The texts in order, with `separator` between each two.
pub open spec fn joined(parts: Seq<Seq<char>>, separator: Seq<char>) -> Seq<char>
    decreases parts.len(),
{
    if parts.len() == 0 {
        Seq::empty()
    } else if parts.len() == 1 {
        parts[0]
    } else {
        joined(parts.drop_last(), separator) + separator + parts.last()
    }
}

/// The strings in order, with `separator` between each two.
pub fn join(parts: &Vec<String>, separator: &str) -> (r: String)
    ensures
        r@ == joined(views(parts@), separator@),
{
    let mut r = String::new();
    let mut i: usize = 0;
    while i < parts.len()
        invariant
            i <= parts.len(),
            r@ == joined(views(parts@).take(i as int), separator@),
        decreases parts.len() - i,
    {
        assert(views(parts@).take(i + 1).drop_last() == views(parts@).take(i as int));
        if i > 0 {
            r.append(separator);
            r.append(parts[i].as_str());
        } else {
            r = parts[0].clone();
        }
        i += 1;
    }
    assert(views(parts@).take(parts@.len() as int) == views(parts@));
    r
}

/// The ASCII lower case of a character; any other character stays as it is.
pub open spec fn lower_char(c: char) -> char {
    if 'A' <= c <= 'Z' {
        ((c as u32) + 32) as char
    } else {
        c
    }
}

/// A text with its ASCII capitals in lower case.
pub open spec fn lowered(s: Seq<char>) -> Seq<char> {
    Seq::new(s.len(), |i: int| lower_char(s[i]))
}

/// The ASCII lower case of a character.
fn to_lower(c: char) -> (r: char)
    ensures
        r == lower_char(c),
{
    if 'A' <= c && c <= 'Z' {
        ((c as u8) + 32) as char
    } else {
        c
    }
}

/// A text with its ASCII capitals in lower case.
pub fn to_ascii_lowercase(s: &str) -> (r: String)
    ensures
        r@ == lowered(s@),
{
    let chars = chars_of(s);
    let mut r = String::new();
    let mut i: usize = 0;
    while i < chars.len()
        invariant
            chars@ == s@,
            i <= chars.len(),
            r@ == lowered(s@).take(i as int),
        decreases chars.len() - i,
    {
        r.push(to_lower(chars[i]));
        i += 1;
    }
    assert(lowered(s@).take(chars@.len() as int) == lowered(s@));
    r
}

/// Whether two strings are equal but for the case of ASCII letters.
pub fn same_ignoring_case(a: &str, b: &str) -> (r: bool)
    ensures
        r == (lowered(a@) == lowered(b@)),
{
    to_ascii_lowercase(a) == to_ascii_lowercase(b)
}

/// The decimal digits of a natural number.
pub open spec fn decimal_digits(n: nat) -> Seq<char>
    decreases n,
{
    if n < 10 {
        seq![(48 + n) as char]
    } else {
        decimal_digits(n / 10).push((48 + n % 10) as char)
    }
}

/// The decimal notation of an integer.
pub open spec fn decimal(n: int) -> Seq<char> {
    if n < 0 {
        seq!['-'] + decimal_digits((-n) as nat)
    } else {
        decimal_digits(n as nat)
    }
}

/// The decimal digits of a number.
pub fn digits_of(n: u64) -> (r: String)
    ensures
        r@ == decimal_digits(n as nat),
    decreases n,
{
    let digit = (48 + (n % 10) as u8) as char;
    let mut r = if n < 10 {
        String::new()
    } else {
        digits_of(n / 10)
    };
    let ghost before = r@;
    r.push(digit);
    assert(r@ == before.push(digit));
    assert(n < 10 ==> r@ =~= seq![digit]);
    r
}

/// The decimal notation of an integer.
pub fn decimal_of(n: i64) -> (r: String)
    ensures
        r@ == decimal(n as int),
{
    if n < 0 {
        let mut r = String::new();
        r.push('-');
        let magnitude: u64 = if n == i64::MIN {
            9223372036854775808u64
        } else {
            (-n) as u64
        };
        let digits = digits_of(magnitude);
        r.append(digits.as_str());
        assert(r@ =~= seq!['-'] + digits@);
        r
    } else {
        digits_of(n as u64)
    }
}

// ---------------------------------------------------------------------------------------------
// Truncation
// ---------------------------------------------------------------------------------------------
/// The first `max` characters of a text, with a note where something was cut off.
pub open spec fn truncated(s: Seq<char>, max: int) -> Seq<char> {
    if s.len() > max {
        s.take(max) + "\n...[truncated]"@
    } else {
        s
    }
}

/// The first `max_chars` characters of a text, with a note where something was cut off.
pub fn truncate(text: &str, max_chars: usize) -> (r: String)
    ensures
        r@ == truncated(text@, max_chars as int),
{
    if text.unicode_len() > max_chars {
        let mut r = text.substring_char(0, max_chars).to_owned();
        assert(r@ == text@.take(max_chars as int));
        r.append("\n...[truncated]");
        r
    } else {
        text.to_owned()
    }
}

/// The number that decimal digits stand for.
pub open spec fn number_of(digits: Seq<char>) -> nat
    decreases digits.len(),
{
    if digits.len() == 0 {
        0
    } else {
        number_of(digits.drop_last()) * 10 + (digits.last() as u32 - '0' as u32) as nat
    }
}

/// Whether a text is made of decimal digits, at least one.
pub open spec fn all_digits(s: Seq<char>) -> bool {
    s.len() > 0 && forall|i: int| 0 <= i < s.len() ==> '0' <= #[trigger] s[i] <= '9'
}

/// The number below 2^64 that a text stands for: decimal digits, with or without a `+` before them.
pub open spec fn parsed_u64(s: Seq<char>) -> Option<u64> {
    let digits = if s.len() > 0 && s[0] == '+' {
        s.skip(1)
    } else {
        s
    };
    if all_digits(digits) && number_of(digits) <= u64::MAX {
        Some(number_of(digits) as u64)
    } else {
        None
    }
}

/// The number of a longer text of digits is not smaller.
proof fn lemma_number_grows(digits: Seq<char>, n: int)
    requires
        0 <= n <= digits.len(),
        forall|i: int| 0 <= i < digits.len() ==> '0' <= #[trigger] digits[i] <= '9',
    ensures
        number_of(digits.take(n)) <= number_of(digits),
    decreases digits.len() - n,
{
    if n == digits.len() {
        assert(digits.take(n) == digits);
    } else {
        lemma_number_grows(digits, n + 1);
        assert(digits.take(n + 1).drop_last() == digits.take(n));
    }
}

/// The number that a text stands for.
pub fn parse_u64(s: &str) -> (r: Option<u64>)
    ensures
        r == parsed_u64(s@),
{
    let chars = chars_of(s);
    let start: usize = if chars.len() > 0 && chars[0] == '+' {
        1
    } else {
        0
    };
    let ghost digits = chars@.skip(start as int);
    assert(start == 0 ==> digits == s@);
    if start >= chars.len() {
        return None;
    }
    let mut number: u64 = 0;
    let mut i: usize = start;
    while i < chars.len()
        invariant
            start <= i <= chars.len(),
            chars@ == s@,
            digits == chars@.skip(start as int),
            digits == if s@.len() > 0 && s@[0] == '+' {
                s@.skip(1)
            } else {
                s@
            },
            forall|k: int| 0 <= k < i - start ==> '0' <= #[trigger] digits[k] <= '9',
            number == number_of(digits.take(i - start)),
        decreases chars.len() - i,
    {
        let c = chars[i];
        assert(c == digits[i - start]);
        if !('0' <= c && c <= '9') {
            return None;
        }
        let digit: u64 = (c as u32 - '0' as u32) as u64;
        assert(digits.take(i - start + 1).drop_last() == digits.take(i - start));
        assert(number_of(digits.take(i - start + 1)) == number * 10 + digit);
        if number > (u64::MAX - digit) / 10 {
            proof {
                assert(number * 10 + digit > u64::MAX);
                if all_digits(digits) {
                    lemma_number_grows(digits, i - start + 1);
                }
            }
            return None;
        }
        number = number * 10 + digit;
        i += 1;
    }
    assert(digits.take(digits.len() as int) == digits);
    Some(number)
}

// ---------------------------------------------------------------------------------------------
// What the operations do to texts put together
// ---------------------------------------------------------------------------------------------
/// A text is found in a text exactly where that is something, the text, and something more.
pub proof fn lemma_held_texts(before: Seq<char>, part: Seq<char>, after: Seq<char>, s: Seq<char>)
    ensures
        holds_text(before + part + after, part),
        holds_text(s, part) ==> exists|a: Seq<char>, b: Seq<char>| s == #[trigger] (a + part + b),
        part.len() > s.len() ==> !holds_text(s, part),
{
    let whole = before + part + after;
    assert(whole.subrange(before.len() as int, (before.len() + part.len()) as int) =~= part);
    assert(stands_at(whole, part, before.len() as int));
    if holds_text(s, part) {
        let i = choose|i: int| stands_at(s, part, i);
        let a = s.take(i);
        let b = s.skip((i + part.len()) as int);
        assert(s =~= a + part + b);
    }
}

/// The first character of a class in a text put together of one without it and more.
proof fn lemma_first_of_parts(a: Seq<char>, c: char, b: Seq<char>, class: CharClass)
    requires
        class.has(c),
    ensures
        first_of(a, class) is Some ==> first_of(a + seq![c] + b, class) == first_of(a, class),
        first_of(a, class) is None ==> first_of(a + seq![c] + b, class) == Some(a.len() as int),
    decreases a.len(),
{
    let whole = a + seq![c] + b;
    if a.len() > 0 {
        assert(whole.skip(1) =~= a.skip(1) + seq![c] + b);
        lemma_first_of_parts(a.skip(1), c, b, class);
        assert(whole[0] == a[0]);
    } else {
        assert(whole[0] == c);
    }
}

/// The pieces of texts with a separating character between them are the pieces of the texts.
pub proof fn lemma_pieces_follow(a: Seq<char>, c: char, b: Seq<char>, class: CharClass)
    requires
        class.has(c),
    ensures
        pieces_of(a + seq![c] + b, class) == pieces_of(a, class) + pieces_of(b, class),
    decreases a.len(),
{
    let whole = a + seq![c] + b;
    lemma_first_of(a, class);
    lemma_first_of_parts(a, c, b, class);
    match first_of(a, class) {
        Some(i) => {
            let rest = a.skip(i + 1);
            lemma_pieces_follow(rest, c, b, class);
            assert(whole.take(i) =~= a.take(i));
            assert(whole.skip(i + 1) =~= rest + seq![c] + b);
            assert(seq![a.take(i)] + (pieces_of(rest, class) + pieces_of(b, class)) =~= (
            seq![a.take(i)] + pieces_of(rest, class)) + pieces_of(b, class));
        },
        None => {
            assert(whole.take(a.len() as int) =~= a);
            assert(whole.skip(a.len() as int + 1) =~= b);
        },
    }
}

/// A text without a character of the class is its only piece.
pub proof fn lemma_one_piece(s: Seq<char>, class: CharClass)
    requires
        forall|i: int| 0 <= i < s.len() ==> !class.has(#[trigger] s[i]),
    ensures
        pieces_of(s, class) == seq![s],
{
    lemma_first_of(s, class);
}

/// Lines that end with a line feed, or a carriage return and a line feed, follow one another.
pub proof fn lemma_lines_follow(line: Seq<char>, rest: Seq<char>)
    requires
        forall|i: int| 0 <= i < line.len() ==> #[trigger] line[i] != '\n',
    ensures
        (
            line.len() == 0 || line.last() != '\r'
        ) ==> lines_of(line + seq!['\n'] + rest) == seq![line]
            + lines_of(rest),
        (line.len() == 0 || line.last() != '\r') ==> lines_of(
            line + seq!['\r'] + seq!['\n'] + rest,
        ) == seq![line] + lines_of(rest),
        line.len() > 0 ==> lines_of(line) == seq![line],
        lines_of(Seq::empty()) == Seq::<Seq<char>>::empty(),
{
    let class = CharClass::Is('\n');
    lemma_first_of(line, class);
    assert(first_of(line, class) is None);
    lemma_first_of_parts(line, '\n', rest, class);
    let whole = line + seq!['\n'] + rest;
    assert(whole.take(line.len() as int) =~= line);
    assert(whole.skip(line.len() as int + 1) =~= rest);
    let ended = line + seq!['\r'];
    lemma_first_of(ended, class);
    if first_of(ended, class) is Some {
        let k = first_of(ended, class)->0;
        assert(ended[k] == '\n');
        assert(k == line.len() || ended[k] == line[k]);
    }
    lemma_first_of_parts(ended, '\n', rest, class);
    let other = ended + seq!['\n'] + rest;
    assert(other.take(ended.len() as int) =~= ended);
    assert(other.skip(ended.len() as int + 1) =~= rest);
    assert(ended.drop_last() =~= line);
}

/// White space around a text is trimmed, and nothing else.
pub proof fn lemma_trimming(a: Seq<char>, s: Seq<char>, b: Seq<char>)
    requires
        blank(a),
        blank(b),
        s.len() > 0,
        !white(s[0]),
        !white(s.last()),
    ensures
        trimmed(a + s + b) == s,
    decreases a.len() + b.len(),
{
    if a.len() > 0 {
        assert((a + s + b)[0] == a[0]);
        assert((a + s + b).skip(1) =~= a.skip(1) + s + b);
        assert(blank(a.skip(1))) by {
            assert forall|i: int| 0 <= i < a.skip(1).len() implies white(
                #[trigger] a.skip(1)[i]
            ) by {
                assert(a.skip(1)[i] == a[i + 1]);
            }
        }
        lemma_trimming(a.skip(1), s, b);
    } else {
        assert(a + s + b =~= s + b);
        assert((s + b)[0] == s[0]);
        lemma_trim_end_parts(s, b);
    }
}

proof fn lemma_trim_end_parts(s: Seq<char>, b: Seq<char>)
    requires
        blank(b),
        s.len() > 0,
        !white(s.last()),
    ensures
        trim_end_of(s + b, CharClass::White) == s,
    decreases b.len(),
{
    if b.len() > 0 {
        assert((s + b).last() == b[b.len() - 1]);
        assert((s + b).drop_last() =~= s + b.drop_last());
        assert(blank(b.drop_last())) by {
            assert forall|i: int| 0 <= i < b.drop_last().len() implies white(
                #[trigger] b.drop_last()[i],
            ) by {
                assert(b.drop_last()[i] == b[i]);
            }
        }
        lemma_trim_end_parts(s, b.drop_last());
    } else {
        assert(s + b =~= s);
    }
}

/// Lower case: each ASCII capital becomes its small letter, and everything else stays.
pub proof fn lemma_lower_case(s: Seq<char>, t: Seq<char>, i: int)
    ensures
        lowered(s).len() == s.len(),
        0 <= i < s.len() && 'A' <= s[i] <= 'Z' ==> lowered(s)[i] as u32 == s[i] as u32 + 32,
        0 <= i < s.len() && !('A' <= s[i] <= 'Z') ==> lowered(s)[i] == s[i],
        lowered(s + t) == lowered(s) + lowered(t),
        lowered(lowered(s)) == lowered(s),
{
    assert(lowered(s + t) =~= lowered(s) + lowered(t));
    assert(lowered(lowered(s)) =~= lowered(s));
}

/// Texts are joined in their order, with the separator between each two and nowhere else.
pub proof fn lemma_joining(parts: Seq<Seq<char>>, last: Seq<char>, separator: Seq<char>)
    ensures
        joined(Seq::empty(), separator) == Seq::<char>::empty(),
        joined(seq![last], separator) == last,
        parts.len() > 0 ==> joined(parts.push(last), separator) == joined(parts, separator)
            + separator + last,
{
    assert(parts.push(last).drop_last() =~= parts);
}

/// A text that is not too long is shown whole; of a longer one the beginning is shown, with a note.
pub proof fn lemma_cutting(s: Seq<char>, rest: Seq<char>, max: int)
    requires
        0 <= max,
    ensures
        s.len() <= max ==> truncated(s, max) == s,
        s.len() == max && rest.len() > 0 ==> truncated(s + rest, max) == s + "\n...[truncated]"@,
{
    if s.len() == max {
        assert((s + rest).take(max) =~= s);
    }
}

/// The decimal notation of a number is made of digits, and stands for that number.
pub proof fn lemma_decimal_notation(n: nat)
    ensures
        all_digits(decimal_digits(n)),
        number_of(decimal_digits(n)) == n,
        decimal(n as int) == decimal_digits(n),
        decimal(-1 - n) == seq!['-'] + decimal_digits(n + 1),
        n > 9 ==> decimal_digits(n)[0] != '0',
    decreases n,
{
    let digits = decimal_digits(n);
    if n < 10 {
        assert(digits.drop_last() =~= Seq::<char>::empty());
        assert(number_of(digits.drop_last()) == 0);
        assert(digits.last() as u32 == 48 + n);
    } else {
        lemma_decimal_notation(n / 10);
        assert(digits.drop_last() =~= decimal_digits(n / 10));
        assert(digits.last() as u32 == 48 + n % 10);
        assert(digits[0] == decimal_digits(n / 10)[0]);
        if n / 10 <= 9 {
            assert(decimal_digits(n / 10)[0] as u32 == 48 + n / 10);
        }
    }
}

/// The words of a text: white space around and between them does not matter.
pub proof fn lemma_words_follow(gap: Seq<char>, word: Seq<char>, c: char, rest: Seq<char>)
    requires
        blank(gap),
        word.len() > 0,
        forall|i: int| 0 <= i < word.len() ==> !white(#[trigger] word[i]),
        white(c),
    ensures
        words_of(gap) == Seq::<Seq<char>>::empty(),
        words_of(gap + word) == seq![word],
        words_of(gap + word + seq![c] + rest) == seq![word] + words_of(rest),
{
    lemma_gap_is_skipped(gap, Seq::empty());
    assert(gap + Seq::<char>::empty() =~= gap);
    assert(trim_start_of(gap, CharClass::White).len() == 0) by {
        assert(trim_start_of(Seq::<char>::empty(), CharClass::White).len() == 0);
    }
    lemma_gap_is_skipped(gap, word);
    assert(trim_start_of(word, CharClass::White) == word);
    lemma_first_of(word, CharClass::White);
    let tail = word + seq![c] + rest;
    lemma_gap_is_skipped(gap, tail);
    assert(gap + tail =~= gap + word + seq![c] + rest);
    assert(tail[0] == word[0]);
    assert(trim_start_of(tail, CharClass::White) == tail);
    lemma_first_of_parts(word, c, rest, CharClass::White);
    assert(tail.take(word.len() as int) =~= word);
    let behind = tail.skip(word.len() as int);
    assert(behind =~= seq![c] + rest);
    assert(blank(seq![c]));
    lemma_gap_is_skipped(seq![c], rest);
    lemma_words_of_trimmed(behind, rest);
}

proof fn lemma_words_of_trimmed(a: Seq<char>, b: Seq<char>)
    requires
        trim_start_of(a, CharClass::White) == trim_start_of(b, CharClass::White),
    ensures
        words_of(a) == words_of(b),
{
}

proof fn lemma_gap_is_skipped(gap: Seq<char>, s: Seq<char>)
    requires
        blank(gap),
    ensures
        trim_start_of(gap + s, CharClass::White) == trim_start_of(s, CharClass::White),
    decreases gap.len(),
{
    if gap.len() > 0 {
        assert((gap + s)[0] == gap[0]);
        assert((gap + s).skip(1) =~= gap.skip(1) + s);
        assert(blank(gap.skip(1))) by {
            assert forall|i: int| 0 <= i < gap.skip(1).len() implies white(
                #[trigger] gap.skip(1)[i],
            ) by {
                assert(gap.skip(1)[i] == gap[i + 1]);
            }
        }
        lemma_gap_is_skipped(gap.skip(1), s);
    } else {
        assert(gap + s =~= s);
    }
}

/// A text that was cut is not cut any further.
pub proof fn lemma_cutting_twice(s: Seq<char>, max: int)
    requires
        0 <= max,
    ensures
        truncated(truncated(s, max), max) == truncated(s, max),
{
    if s.len() > max {
        reveal_strlit("\n...[truncated]");
        assert(truncated(s, max).take(max) =~= s.take(max));
    }
}

/// Every copy of a prefix is cut off, and nothing else.
pub proof fn lemma_prefixes_are_cut_off(prefix: Seq<char>, s: Seq<char>)
    requires
        prefix.len() > 0,
    ensures
        without_prefixes(prefix + s, prefix) == without_prefixes(s, prefix),
        !has_prefix(s, prefix) ==> without_prefixes(s, prefix) == s,
        !has_prefix(s, prefix) ==> without_prefixes(prefix + s, prefix) == s,
{
    assert((prefix + s).take(prefix.len() as int) =~= prefix);
    assert((prefix + s).skip(prefix.len() as int) =~= s);
}

/// A text between white space is what trimming leaves of it.
pub proof fn lemma_nothing_to_trim(s: Seq<char>)
    requires
        s.len() > 0,
        !white(s[0]),
        !white(s.last()),
    ensures
        trimmed(s) == s,
{
    let none = Seq::<char>::empty();
    lemma_trimming(none, s, none);
    assert(none + s + none =~= s);
}

/// What counts as white space: the blank, the tab, the ends of lines, and no character that can be
/// seen in ASCII.
pub proof fn lemma_white_space(c: char)
    ensures
        white(' ') && white('\t') && white('\n') && white('\r'),
        white('\u{b}') && white('\u{c}') && white('\u{85}') && white('\u{a0}') && white('\u{3000}'),
        '!' <= c <= '~' ==> !white(c),
        c < '\t' ==> !white(c),
        '\u{e}' <= c < ' ' ==> !white(c),
{
}

/// The decimal notation: a number below ten is its digit, and one more digit behind a notation
/// stands for ten times the number and that digit.
pub proof fn lemma_decimal_digits(n: nat, d: nat)
    requires
        d < 10,
    ensures
        decimal_digits(d).len() == 1,
        (decimal_digits(d)[0] as u32) as int == 48 + d,
        n > 0 ==> decimal_digits(10 * n + d) == decimal_digits(n).push(decimal_digits(d)[0]),
        n > 0 ==> decimal(-(n as int)) == seq!['-'] + decimal_digits(n),
        decimal(n as int) == decimal_digits(n),
        number_of(decimal_digits(n).push(decimal_digits(d)[0])) == 10 * number_of(decimal_digits(n))
            + d,
{
    if n > 0 {
        assert((10 * n + d) / 10 == n);
        assert((10 * n + d) % 10 == d);
    }
    let more = decimal_digits(n).push(decimal_digits(d)[0]);
    assert(more.drop_last() =~= decimal_digits(n));
}

/// Which texts are numbers below 2^64: digits that stand for one, with or without a plus sign
/// before them.
pub proof fn lemma_which_texts_are_numbers(digits: Seq<char>, s: Seq<char>, i: int)
    requires
        all_digits(digits),
    ensures
        number_of(digits) <= u64::MAX ==> (parsed_u64(digits) matches Some(n) && n as nat
            == number_of(digits)),
        number_of(digits) <= u64::MAX ==> parsed_u64(seq!['+'] + digits) == parsed_u64(digits),
        number_of(digits) > u64::MAX ==> parsed_u64(digits) is None,
        parsed_u64(Seq::empty()) is None,
        0 < i < s.len() && !('0' <= s[i] <= '9') ==> parsed_u64(s) is None,
        s.len() > 0 && s[0] != '+' && !('0' <= s[0] <= '9') ==> parsed_u64(s) is None,
{
    let signed = seq!['+'] + digits;
    assert(signed[0] == '+');
    assert(signed.skip(1) =~= digits);
    assert('0' <= digits[0] <= '9');
    if 0 < i < s.len() && !('0' <= s[i] <= '9') {
        assert(s.skip(1)[i - 1] == s[i]);
    }
}

} // verus!
