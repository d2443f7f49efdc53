//! Socket addresses as text: an IPv4 address, or an IPv6 address in brackets, and a port.
use crate::text::{
    all_digits, chars_of, decimal, decimal_digits, find, found, has_prefix, holds_text, joined,
    lemma_decimal_notation, lemma_found, lemma_one_piece, lemma_pieces_follow, number_of, parse_u64,
    pieces_of, split_class, stands_at, starts_with, strip_prefix, views, CharClass,
};
use vstd::prelude::*;

verus! {

/// Whether a text is a number in decimal digits, at most `max`. It may start with zeros.
pub open spec fn number_up_to(s: Seq<char>, max: nat) -> bool {
    s.len() > 0 && all_digits(s) && number_of(s) <= max
}

fn is_number_up_to(s: &str, max: u64) -> (r: bool)
    ensures
        r == number_up_to(s@, max as nat),
{
    match parse_u64(s) {
        Some(n) => n <= max && s.get_char(0) != '+',
        None => false,
    }
}

/// Whether a text is a number of an IPv4 address: at most 255, in at most three digits, without
/// zeros in front.
pub open spec fn octet(s: Seq<char>) -> bool {
    s.len() <= 3 && number_up_to(s, 255) && (s.len() > 1 ==> s[0] != '0')
}

fn is_octet(s: &str) -> (r: bool)
    ensures
        r == octet(s@),
{
    let n = s.unicode_len();
    n <= 3 && is_number_up_to(s, 255) && (n <= 1 || s.get_char(0) != '0')
}

/// Whether a text is an IPv4 address: four numbers with points between them.
pub open spec fn ipv4_address(s: Seq<char>) -> bool {
    let parts = pieces_of(s, CharClass::Is('.'));
    parts.len() == 4 && octet(parts[0]) && octet(parts[1]) && octet(parts[2]) && octet(parts[3])
}

fn is_ipv4_address(s: &str) -> (r: bool)
    ensures
        r == ipv4_address(s@),
{
    let parts = split_class(s, CharClass::Is('.'));
    assert(views(parts@).len() == parts@.len());
    if parts.len() != 4 {
        return false;
    }
    assert(forall|i: int| 0 <= i < 4 ==> views(parts@)[i] == (#[trigger] parts@[i])@);
    is_octet(parts[0].as_str()) && is_octet(parts[1].as_str()) && is_octet(parts[2].as_str())
        && is_octet(parts[3].as_str())
}

/// Whether a character is a hexadecimal digit.
pub open spec fn hexadecimal(c: char) -> bool {
    ('0' <= c <= '9') || ('a' <= c <= 'f') || ('A' <= c <= 'F')
}

/// Whether a text is a group of an IPv6 address: one to four hexadecimal digits.
pub open spec fn group(s: Seq<char>) -> bool {
    1 <= s.len() <= 4 && forall|i: int| 0 <= i < s.len() ==> hexadecimal(#[trigger] s[i])
}

fn is_group(s: &str) -> (r: bool)
    ensures
        r == group(s@),
{
    let chars = chars_of(s);
    if chars.len() == 0 || chars.len() > 4 {
        return false;
    }
    let mut i: usize = 0;
    while i < chars.len()
        invariant
            i <= chars.len(),
            chars@ == s@,
            forall|k: int| 0 <= k < i ==> hexadecimal(#[trigger] chars@[k]),
        decreases chars.len() - i,
    {
        let c = chars[i];
        if !(('0' <= c && c <= '9') || ('a' <= c && c <= 'f') || ('A' <= c && c <= 'F')) {
            assert(!hexadecimal(s@[i as int]));
            return false;
        }
        i += 1;
    }
    true
}

/// How many groups of an IPv6 address a text gives, where it is groups with colons between them.
/// Where `tail` says so, the last of them may be an IPv4 address, which stands for two. The empty
/// text gives none.
pub open spec fn group_count(s: Seq<char>, tail: bool) -> Option<nat> {
    let parts = pieces_of(s, CharClass::Is(':'));
    let last = parts.last();
    if s.len() == 0 {
        Some(0)
    } else if exists|i: int| 0 <= i < parts.len() - 1 && !group(#[trigger] parts[i]) {
        None
    } else if group(last) {
        Some(parts.len())
    } else if tail && ipv4_address(last) {
        Some(parts.len() + 1)
    } else {
        None
    }
}

fn count_groups(s: &str, tail: bool) -> (r: Option<usize>)
    ensures
        r matches Some(n) ==> group_count(s@, tail) == Some(n as nat),
        r is None ==> group_count(s@, tail) is None || group_count(s@, tail)->0 > 8,
{
    if s.is_empty() {
        return Some(0);
    }
    let parts = split_class(s, CharClass::Is(':'));
    let ghost all = views(parts@);
    assert(all == pieces_of(s@, CharClass::Is(':')));
    let n = parts.len();
    if n > 8 {
        return None;
    }
    let mut i: usize = 0;
    while i < n - 1
        invariant
            n == parts@.len(),
            0 < n,
            i <= n - 1,
            all == views(parts@),
            all == pieces_of(s@, CharClass::Is(':')),
            s@.len() > 0,
            forall|k: int| 0 <= k < i ==> group(#[trigger] all[k]),
        decreases n - i,
    {
        assert(all[i as int] == parts@[i as int]@);
        if !is_group(parts[i].as_str()) {
            return None;
        }
        i += 1;
    }
    assert(all.last() == parts@[n - 1]@);
    let last = parts[n - 1].as_str();
    if is_group(last) {
        Some(n)
    } else if tail && is_ipv4_address(last) {
        Some(n + 1)
    } else {
        None
    }
}

/// Whether a text is an IPv6 address: eight groups with colons between them, or fewer and `::` in
/// the place of the missing ones, at least one.
pub open spec fn ipv6_address(s: Seq<char>) -> bool {
    match found(s, "::"@) {
        None => group_count(s, true) == Some(8nat),
        Some(i) => match (group_count(s.take(i), false), group_count(s.skip(i + 2), true)) {
            (Some(head), Some(tail)) => head + tail <= 7,
            _ => false,
        },
    }
}

fn is_ipv6_address(s: &str) -> (r: bool)
    ensures
        r == ipv6_address(s@),
{
    proof {
        reveal_strlit("::");
    }
    match find(s, "::") {
        None => match count_groups(s, true) {
            Some(n) => n == 8,
            None => false,
        },
        Some(i) => {
            let len = s.unicode_len();
            let head = s.substring_char(0, i);
            let tail = s.substring_char(i + 2, len);
            assert(s@.subrange(0, i as int) == s@.take(i as int));
            assert(s@.subrange(i + 2, len as int) == s@.skip(i + 2));
            match (count_groups(head, false), count_groups(tail, true)) {
                (Some(a), Some(b)) => a <= 7 && b <= 7 && a + b <= 7,
                _ => false,
            }
        },
    }
}

/// Whether a text is a port behind a colon.
pub open spec fn colon_port(s: Seq<char>) -> bool {
    has_prefix(s, ":"@) && number_up_to(s.skip(1), 65535)
}

fn is_colon_port(s: &str) -> (r: bool)
    ensures
        r == colon_port(s@),
{
    proof {
        reveal_strlit(":");
    }
    match strip_prefix(s, ":") {
        Some(port) => is_number_up_to(port, 65535),
        None => false,
    }
}

/// Whether a text is an IPv6 address, which may be followed by `%` and the number of a scope.
pub open spec fn scoped_ipv6_address(s: Seq<char>) -> bool {
    match found(s, "%"@) {
        None => ipv6_address(s),
        Some(i) => ipv6_address(s.take(i)) && number_up_to(s.skip(i + 1), 0xffff_ffff),
    }
}

fn is_scoped_ipv6_address(s: &str) -> (r: bool)
    ensures
        r == scoped_ipv6_address(s@),
{
    proof {
        reveal_strlit("%");
    }
    match find(s, "%") {
        None => is_ipv6_address(s),
        Some(i) => {
            let len = s.unicode_len();
            let address = s.substring_char(0, i);
            let scope = s.substring_char(i + 1, len);
            assert(s@.subrange(0, i as int) == s@.take(i as int));
            assert(s@.subrange(i + 1, len as int) == s@.skip(i + 1));
            is_ipv6_address(address) && is_number_up_to(scope, 0xffff_ffff)
        },
    }
}

/// Whether a text is a socket address: `1.2.3.4:80` or `[::1]:80`.
pub open spec fn socket_address(s: Seq<char>) -> bool {
    if has_prefix(s, "["@) {
        match found(s, "]"@) {
            Some(i) => scoped_ipv6_address(s.subrange(1, i)) && colon_port(s.skip(i + 1)),
            None => false,
        }
    } else {
        match found(s, ":"@) {
            Some(i) => ipv4_address(s.take(i)) && colon_port(s.skip(i)),
            None => false,
        }
    }
}

/// Whether a text is a socket address.
pub fn is_socket_address(s: &str) -> (r: bool)
    ensures
        r == socket_address(s@),
{
    proof {
        reveal_strlit("[");
        reveal_strlit("]");
        reveal_strlit(":");
        lemma_found(s@, "]"@);
    }
    let len = s.unicode_len();
    if starts_with(s, "[") {
        match find(s, "]") {
            Some(i) => {
                assert(s@[0] == '[') by {
                    assert(s@.take(1)[0] == "["@[0]);
                }
                assert(i > 0) by {
                    assert(s@.subrange(i as int, i + 1)[0] == "]"@[0]);
                }
                let address = s.substring_char(1, i);
                let port = s.substring_char(i + 1, len);
                assert(s@.subrange(i + 1, len as int) == s@.skip(i + 1));
                is_scoped_ipv6_address(address) && is_colon_port(port)
            },
            None => false,
        }
    } else {
        match find(s, ":") {
            Some(i) => {
                let address = s.substring_char(0, i);
                let port = s.substring_char(i, len);
                assert(s@.subrange(0, i as int) == s@.take(i as int));
                assert(s@.subrange(i as int, len as int) == s@.skip(i as int));
                is_ipv4_address(address) && is_colon_port(port)
            },
            None => false,
        }
    }
}

/// Whether a text holds neither dots nor colons, brackets nor signs of a zone.
spec fn unbroken(s: Seq<char>) -> bool {
    forall|i: int| 0 <= i < s.len() ==> {
        let c = #[trigger] s[i];
        c != '.' && c != ':' && c != '[' && c != ']' && c != '%'
    }
}

proof fn lemma_four_pieces(a: Seq<char>, b: Seq<char>, c: Seq<char>, d: Seq<char>)
    requires
        unbroken(a) && unbroken(b) && unbroken(c) && unbroken(d),
    ensures
        pieces_of(
            a + seq!['.'] + (b + seq!['.'] + (c + seq!['.'] + d)),
            CharClass::Is('.'),
        ) == seq![a, b, c, d],
{
    let dot = CharClass::Is('.');
    lemma_one_piece(a, dot);
    lemma_one_piece(b, dot);
    lemma_one_piece(c, dot);
    lemma_one_piece(d, dot);
    lemma_pieces_follow(c, '.', d, dot);
    lemma_pieces_follow(b, '.', c + seq!['.'] + d, dot);
    lemma_pieces_follow(a, '.', b + seq!['.'] + (c + seq!['.'] + d), dot);
    assert(seq![a] + (seq![b] + (seq![c] + seq![d])) =~= seq![a, b, c, d]);
}

/// Four numbers up to 255 with dots between them are an address, and a number that is too large or
/// has a zero before it makes it none.
pub proof fn lemma_dotted_addresses(a: Seq<char>, b: Seq<char>, c: Seq<char>, d: Seq<char>)
    requires
        forall|i: int| 0 <= i < a.len() ==> '0' <= #[trigger] a[i] <= '9',
        forall|i: int| 0 <= i < b.len() ==> '0' <= #[trigger] b[i] <= '9',
        forall|i: int| 0 <= i < c.len() ==> '0' <= #[trigger] c[i] <= '9',
        forall|i: int| 0 <= i < d.len() ==> '0' <= #[trigger] d[i] <= '9',
    ensures
        ipv4_address(
            a + seq!['.'] + (b + seq!['.'] + (c + seq!['.'] + d))
        ) <==> octet(a) && octet(b)
            && octet(c) && octet(d),
{
    lemma_four_pieces(a, b, c, d);
}

/// The numbers up to 255 are the parts of an address in their usual notation.
pub proof fn lemma_parts_of_addresses(n: nat, s: Seq<char>)
    ensures
        octet(decimal(n as int)) <==> n <= 255,
        s.len() > 3 ==> !octet(s),
        s.len() == 0 ==> !octet(s),
        s.len() > 1 && s[0] == '0' ==> !octet(s),
{
    lemma_decimal_notation(n);
    lemma_short_notation(n);
}

proof fn lemma_short_notation(n: nat)
    ensures
        n <= 255 ==> decimal_digits(n).len() <= 3,
        decimal_digits(n).len() > 1 ==> decimal_digits(n)[0] != '0',
    decreases n,
{
    reveal_with_fuel(decimal_digits, 4);
    if n >= 10 {
        lemma_short_notation(n / 10);
        assert(decimal_digits(n)[0] == decimal_digits(n / 10)[0]);
        if n / 10 < 10 {
            assert(decimal_digits(n / 10)[0] == (48 + n / 10) as char);
        }
    }
}

/// An address of four numbers with a port behind a colon is one to listen on.
pub proof fn lemma_sockets_of_dotted_addresses(address: Seq<char>, port: Seq<char>)
    requires
        !holds_text(address, ":"@),
        !has_prefix(address + seq![':'] + port, "["@),
    ensures
        socket_address(address + seq![':'] + port) <==> ipv4_address(address) && number_up_to(
            port,
            65535,
        ),
{
    reveal_strlit(":");
    let all = address + seq![':'] + port;
    let n = address.len() as int;
    lemma_found(all, ":"@);
    assert(stands_at(all, ":"@, n)) by {
        assert(all.subrange(n, n + 1) =~= ":"@);
    }
    assert forall|j: int| 0 <= j < n implies !stands_at(all, ":"@, j) by {
        if stands_at(all, ":"@, j) {
            assert(address.subrange(j, j + 1) =~= all.subrange(j, j + 1));
            assert(stands_at(address, ":"@, j));
        }
    }
    assert(all.take(n) =~= address);
    assert(all.skip(n) =~= seq![':'] + port);
    let rest = seq![':'] + port;
    assert(rest.take(1) =~= ":"@);
    assert(rest.skip(1) =~= port);
}

/// A longer address stands in brackets before its port.
pub proof fn lemma_sockets_of_long_addresses(address: Seq<char>, port: Seq<char>)
    requires
        !holds_text(address, "]"@),
        !holds_text(address, "%"@),
    ensures
        socket_address(
            seq!['['] + address + seq![']'] + seq![':'] + port
        ) <==> ipv6_address(address)
            && number_up_to(port, 65535),
{
    reveal_strlit("[");
    reveal_strlit("]");
    reveal_strlit(":");
    let all = seq!['['] + address + seq![']'] + seq![':'] + port;
    let n = address.len() as int + 1;
    assert(all.take(1) =~= "["@);
    lemma_found(all, "]"@);
    assert(stands_at(all, "]"@, n)) by {
        assert(all.subrange(n, n + 1) =~= "]"@);
    }
    assert forall|j: int| 0 <= j < n implies !stands_at(all, "]"@, j) by {
        if stands_at(all, "]"@, j) {
            assert(all.subrange(j, j + 1)[0] == ']');
            if j > 0 {
                assert(address.subrange(j - 1, j) =~= all.subrange(j, j + 1));
                assert(stands_at(address, "]"@, j - 1));
            }
        }
    }
    assert(all.subrange(1, n) =~= address);
    assert(all.skip(n + 1) =~= seq![':'] + port);
    lemma_found(address, "%"@);
    let rest = seq![':'] + port;
    assert(rest.take(1) =~= ":"@);
    assert(rest.skip(1) =~= port);
}

/// Eight groups of up to four hexadecimal digits with colons between them are an address.
pub proof fn lemma_groups_of_long_addresses(groups: Seq<Seq<char>>)
    requires
        forall|i: int| 0 <= i < groups.len() ==> group(#[trigger] groups[i]),
        groups.len() > 0,
    ensures
        group_count(joined(groups, ":"@), true) == Some(groups.len()),
        group_count(joined(groups, ":"@), false) == Some(groups.len()),
        group_count(Seq::empty(), true) == Some(0nat),
{
    reveal_strlit(":");
    lemma_groups_are_pieces(groups);
    let s = joined(groups, ":"@);
    assert(pieces_of(s, CharClass::Is(':')) == groups);
    assert(group(groups[groups.len() - 1]));
    if s.len() == 0 {
        lemma_one_piece(s, CharClass::Is(':'));
        assert(groups[0] == s);
    }
}

proof fn lemma_groups_are_pieces(groups: Seq<Seq<char>>)
    requires
        forall|i: int| 0 <= i < groups.len() ==> group(#[trigger] groups[i]),
        groups.len() > 0,
    ensures
        pieces_of(joined(groups, ":"@), CharClass::Is(':')) == groups,
    decreases groups.len(),
{
    reveal_strlit(":");
    let colon = CharClass::Is(':');
    let last = groups.last();
    assert(group(groups[groups.len() - 1]));
    assert forall|i: int| 0 <= i < last.len() implies !colon.has(#[trigger] last[i]) by {
        assert(hexadecimal(last[i]));
    }
    lemma_one_piece(last, colon);
    if groups.len() == 1 {
        assert(groups =~= seq![last]);
    } else {
        let before = groups.drop_last();
        assert forall|i: int| 0 <= i < before.len() implies group(#[trigger] before[i]) by {
            assert(before[i] == groups[i]);
        }
        lemma_groups_are_pieces(before);
        lemma_pieces_follow(joined(before, ":"@), ':', last, colon);
        assert(":"@ =~= seq![':']);
        assert(before + seq![last] =~= groups);
    }
}

/// Two colons stand for groups of zeros that are left out: at least one, so that there are at most
/// seven others.
pub proof fn lemma_shortened_addresses(head: Seq<char>, tail: Seq<char>, s: Seq<char>)
    requires
        !holds_text(head + seq![':'], "::"@),
        !holds_text(s, "::"@),
    ensures
        ipv6_address(head + seq![':', ':'] + tail) <==> group_count(head, false) is Some
            && group_count(tail, true) is Some && group_count(head, false)->0 + group_count(
            tail,
            true,
        )->0 <= 7,
        ipv6_address(s) <==> group_count(s, true) == Some(8nat),
{
    reveal_strlit("::");
    let all = head + seq![':', ':'] + tail;
    let n = head.len() as int;
    lemma_found(s, "::"@);
    lemma_found(all, "::"@);
    assert(stands_at(all, "::"@, n)) by {
        assert(all.subrange(n, n + 2) =~= "::"@);
    }
    let start = head + seq![':'];
    assert forall|j: int| 0 <= j < n implies !stands_at(all, "::"@, j) by {
        if stands_at(all, "::"@, j) {
            assert(start.subrange(j, j + 2) =~= all.subrange(j, j + 2));
            assert(stands_at(start, "::"@, j));
        }
    }
    assert(all.take(n) =~= head);
    assert(all.skip(n + 2) =~= tail);
}

/// A long address may end with an address of four numbers, which stands for two groups.
pub proof fn lemma_dotted_ends(groups: Seq<Seq<char>>, address: Seq<char>)
    requires
        forall|i: int| 0 <= i < groups.len() ==> group(#[trigger] groups[i]),
        groups.len() > 0,
        ipv4_address(address),
        forall|i: int| 0 <= i < address.len() ==> #[trigger] address[i] != ':',
        !group(address),
    ensures
        group_count(joined(groups, ":"@) + seq![':'] + address, true) == Some(groups.len() + 2),
        group_count(joined(groups, ":"@) + seq![':'] + address, false) is None,
{
    reveal_strlit(":");
    let colon = CharClass::Is(':');
    lemma_groups_are_pieces(groups);
    lemma_one_piece(address, colon);
    lemma_pieces_follow(joined(groups, ":"@), ':', address, colon);
    let s = joined(groups, ":"@) + seq![':'] + address;
    let parts = pieces_of(s, colon);
    assert(parts =~= groups.push(address));
    assert(parts.last() == address);
    assert forall|i: int| 0 <= i < parts.len() - 1 implies group(#[trigger] parts[i]) by {
        assert(parts[i] == groups[i]);
    }
}

/// A zone may stand behind a long address.
pub proof fn lemma_zones_of_long_addresses(address: Seq<char>, zone: Seq<char>)
    requires
        !holds_text(address, "%"@),
    ensures
        scoped_ipv6_address(address + seq!['%'] + zone) <==> ipv6_address(address) && number_up_to(
            zone,
            0xffff_ffff,
        ),
        scoped_ipv6_address(address) <==> ipv6_address(address),
{
    reveal_strlit("%");
    let all = address + seq!['%'] + zone;
    let n = address.len() as int;
    lemma_found(address, "%"@);
    lemma_found(all, "%"@);
    assert(stands_at(all, "%"@, n)) by {
        assert(all.subrange(n, n + 1) =~= "%"@);
    }
    assert forall|j: int| 0 <= j < n implies !stands_at(all, "%"@, j) by {
        if stands_at(all, "%"@, j) {
            assert(address.subrange(j, j + 1) =~= all.subrange(j, j + 1));
            assert(stands_at(address, "%"@, j));
        }
    }
    assert(all.take(n) =~= address);
    assert(all.skip(n + 1) =~= zone);
}

/// A number is at most another in its decimal notation where it is; nothing is no number.
pub proof fn lemma_numbers_up_to(n: nat, max: nat)
    ensures
        number_up_to(decimal(n as int), max) <==> n <= max,
        !number_up_to(Seq::empty(), max),
{
    lemma_decimal_notation(n);
}

/// Which texts are groups of a long address: up to four hexadecimal digits, of either case.
pub proof fn lemma_which_texts_are_groups(s: Seq<char>, i: int)
    ensures
        group(s) ==> 1 <= s.len() <= 4,
        group(s) && 0 <= i < s.len() ==> ('0' <= s[i] <= '9') || ('a' <= s[i] <= 'f') || ('A'
            <= s[i] <= 'F'),
        1 <= s.len() <= 4 && (forall|k: int|
            0 <= k < s.len() ==> ('0' <= #[trigger] s[k] <= '9') || ('a' <= s[k] <= 'f') || ('A'
                <= s[k] <= 'F')) ==> group(s),
{
    if group(s) && 0 <= i < s.len() {
        assert(hexadecimal(s[i]));
    }
}

} // verus!
