//! Ranking files by how well they match a query.
use crate::headers::{is_before, text_before};
use crate::headers::lemma_before_total;
use crate::requests::{
    GetRelevantFilesRequest, GetRelevantFilesRequestView, RelevantFileContext,
    RelevantFileContextView,
};
use crate::text::{
    ascii_alphanumeric, chars_of, contains, holds_text, lemma_one_piece, lemma_pieces_follow,
    lowered, pieces_of, split_class, stands_at, to_ascii_lowercase, views, CharClass,
};
use vstd::multiset::Multiset;
use vstd::prelude::*;
use vstd::utf8::encode_utf8;

verus! {

// ---------------------------------------------------------------------------------------------
// Terms
// ---------------------------------------------------------------------------------------------
/// The pieces of at least two characters, in lower case.
pub open spec fn long_pieces(pieces: Seq<Seq<char>>) -> Seq<Seq<char>>
    decreases pieces.len(),
{
    if pieces.len() == 0 {
        Seq::empty()
    } else {
        let before = long_pieces(pieces.drop_last());
        if pieces.last().len() >= 2 {
            before.push(lowered(pieces.last()))
        } else {
            before
        }
    }
}

/// The terms of a query: its words of ASCII letters, digits, `_` and `-` that have at least two
/// characters, in lower case.
pub open spec fn terms_of(query: Seq<char>) -> Seq<Seq<char>> {
    long_pieces(pieces_of(query, CharClass::NotWord))
}

/// The terms of a query.
pub fn tokenize_for_ranking(query: &str) -> (r: Vec<String>)
    ensures
        views(r@) == terms_of(query@),
{
    let pieces = split_class(query, CharClass::NotWord);
    let ghost all = views(pieces@);
    let mut r: Vec<String> = Vec::new();
    let mut i: usize = 0;
    while i < pieces.len()
        invariant
            i <= pieces.len(),
            all == views(pieces@),
            views(r@) == long_pieces(all.take(i as int)),
        decreases pieces.len() - i,
    {
        assert(all.take(i + 1).drop_last() == all.take(i as int));
        let ghost before = views(r@);
        if pieces[i].as_str().unicode_len() >= 2 {
            let term = to_ascii_lowercase(pieces[i].as_str());
            r.push(term);
            assert(views(r@) =~= before.push(term@));
        }
        i += 1;
    }
    assert(all.take(all.len() as int) == all);
    r
}

// ---------------------------------------------------------------------------------------------
// Scores
// ---------------------------------------------------------------------------------------------
/// What follows the last slash.
pub open spec fn file_name_of(path: Seq<char>) -> Seq<char>
    decreases path.len(),
{
    if path.len() == 0 || path.last() == '/' {
        Seq::empty()
    } else {
        file_name_of(path.drop_last()).push(path.last())
    }
}

/// What follows the last slash.
fn find_file_name<'a>(path: &'a str) -> (r: &'a str)
    ensures
        r@ == file_name_of(path@),
{
    let chars = chars_of(path);
    let mut i: usize = chars.len();
    assert(path@.take(i as int) == path@);
    assert(file_name_of(path@) + path@.skip(i as int) =~= file_name_of(path@));
    while i > 0 && chars[i - 1] != '/'
        invariant
            i <= chars.len(),
            chars@ == path@,
            file_name_of(path@.take(i as int)) + path@.skip(i as int) == file_name_of(path@),
        decreases i,
    {
        assert(path@.take(i as int).drop_last() == path@.take(i - 1));
        assert(file_name_of(path@.take(i as int)) + path@.skip(i as int) =~= file_name_of(
            path@.take(i - 1),
        ) + path@.skip(i - 1));
        i -= 1;
    }
    assert(Seq::<char>::empty() + path@.skip(i as int) =~= path@.skip(i as int));
    assert(path@.subrange(i as int, path@.len() as int) =~= path@.skip(i as int));
    path.substring_char(i, chars.len())
}

/// What a term adds to the score of a file: eight where it stands in the name of the file, four
/// where it stands in the path, and two where it stands in the symbols.
pub open spec fn term_score(file: RelevantFileContextView, term: Seq<char>) -> nat {
    let path = lowered(file.path);
    let name: nat = if holds_text(file_name_of(path), term) {
        8
    } else {
        0
    };
    let place: nat = if holds_text(path, term) {
        4
    } else {
        0
    };
    let symbols: nat = if holds_text(lowered(file.symbols), term) {
        2
    } else {
        0
    };
    name + place + symbols
}

/// The score of a file: what the terms add to it.
pub open spec fn score_of(file: RelevantFileContextView, terms: Seq<Seq<char>>) -> nat
    decreases terms.len(),
{
    if terms.len() == 0 {
        0
    } else {
        score_of(file, terms.drop_last()) + term_score(file, terms.last())
    }
}

/// The score of a file.
fn score_file(file: &RelevantFileContext, terms: &Vec<String>) -> (r: u128)
    ensures
        r == score_of(file@, views(terms@)),
{
    let path = to_ascii_lowercase(file.path.as_str());
    let symbols = to_ascii_lowercase(file.symbols.as_str());
    let name = find_file_name(path.as_str());
    let ghost all = views(terms@);
    let mut score: u128 = 0;
    let mut i: usize = 0;
    while i < terms.len()
        invariant
            i <= terms.len(),
            all == views(terms@),
            path@ == lowered(file@.path),
            symbols@ == lowered(file@.symbols),
            name@ == file_name_of(path@),
            score == score_of(file@, all.take(i as int)),
            score <= 14 * (i as u128),
        decreases terms.len() - i,
    {
        assert(all.take(i + 1).drop_last() == all.take(i as int));
        let term = terms[i].as_str();
        if contains(name, term) {
            score += 8;
        }
        if contains(path.as_str(), term) {
            score += 4;
        }
        if contains(symbols.as_str(), term) {
            score += 2;
        }
        i += 1;
    }
    assert(all.take(all.len() as int) == all);
    score
}

// ---------------------------------------------------------------------------------------------
// The order of the files
// ---------------------------------------------------------------------------------------------
/// Whether a scored path comes before another: by the higher score, then by the shorter path in
/// bytes, then by the order of the paths.
pub open spec fn ranks_before(a: (nat, Seq<char>), b: (nat, Seq<char>)) -> bool {
    if a.0 != b.0 {
        a.0 > b.0
    } else if encode_utf8(a.1).len() != encode_utf8(b.1).len() {
        encode_utf8(a.1).len() < encode_utf8(b.1).len()
    } else {
        text_before(a.1, b.1)
    }
}

/// A ranking with one more scored path at its place, behind those that are the same.
pub open spec fn ranked_with(
    ranking: Seq<(nat, Seq<char>)>,
    entry: (nat, Seq<char>),
) -> Seq<(nat, Seq<char>)>
    decreases ranking.len(),
{
    if ranking.len() == 0 {
        seq![entry]
    } else if ranks_before(entry, ranking[0]) {
        seq![entry] + ranking
    } else {
        seq![ranking[0]] + ranked_with(ranking.skip(1), entry)
    }
}

/// The files that have a score, ranked.
pub open spec fn ranking_of(files: Seq<RelevantFileContextView>, terms: Seq<Seq<char>>) -> Seq<
    (nat, Seq<char>),
>
    decreases files.len(),
{
    if files.len() == 0 {
        Seq::empty()
    } else {
        let before = ranking_of(files.drop_last(), terms);
        let score = score_of(files.last(), terms);
        if score > 0 {
            ranked_with(before, (score, files.last().path))
        } else {
            before
        }
    }
}

/// The first `n` items.
pub open spec fn first_n<T>(items: Seq<T>, n: int) -> Seq<T> {
    if items.len() > n {
        items.take(n)
    } else {
        items
    }
}

/// The paths of some files.
pub open spec fn paths_of(files: Seq<RelevantFileContextView>) -> Seq<Seq<char>> {
    Seq::new(files.len(), |i: int| files[i].path)
}

/// The paths of a ranking.
pub open spec fn ranked_paths(ranking: Seq<(nat, Seq<char>)>) -> Seq<Seq<char>> {
    Seq::new(ranking.len(), |i: int| ranking[i].1)
}

/// The files that matter to a query: the twelve best of those that match it, or the first eight
/// where the query has no terms.
pub open spec fn relevant_files(request: GetRelevantFilesRequestView) -> Seq<Seq<char>> {
    let terms = terms_of(request.query);
    if terms.len() == 0 {
        paths_of(first_n(request.files, 8))
    } else {
        ranked_paths(first_n(ranking_of(request.files, terms), 12))
    }
}

/// Whether no scored path comes before one that stands earlier.
pub open spec fn in_rank_order(ranking: Seq<(nat, Seq<char>)>) -> bool {
    forall|i: int, j: int|
        0 <= i < j < ranking.len() ==> !ranks_before(#[trigger] ranking[j], #[trigger] ranking[i])
}

proof fn lemma_before_transitive(a: Seq<char>, b: Seq<char>, c: Seq<char>)
    requires
        text_before(a, b),
        !text_before(c, b),
    ensures
        text_before(a, c),
    decreases a.len(),
{
    lemma_before_total(b, c);
    if a.len() > 0 && c.len() > 0 && a[0] == b[0] && b[0] == c[0] {
        lemma_before_transitive(a.skip(1), b.skip(1), c.skip(1));
    }
}

proof fn lemma_ranks_transitive(
    a: (nat, Seq<char>),
    b: (nat, Seq<char>),
    c: (nat, Seq<char>),
)
    requires
        ranks_before(a, b),
        !ranks_before(c, b),
    ensures
        ranks_before(a, c),
        !ranks_before(c, a),
{
    lemma_before_total(a.1, b.1);
    lemma_before_total(b.1, c.1);
    lemma_before_total(a.1, c.1);
    if a.0 == b.0 && b.0 == c.0 && encode_utf8(a.1).len() == encode_utf8(b.1).len() && encode_utf8(
        b.1,
    ).len() == encode_utf8(c.1).len() {
        lemma_before_transitive(a.1, b.1, c.1);
    }
}

/// Ranking one more path keeps the order and adds that path alone.
pub proof fn lemma_ranked_with(ranking: Seq<(nat, Seq<char>)>, entry: (nat, Seq<char>))
    requires
        in_rank_order(ranking),
    ensures
        in_rank_order(ranked_with(ranking, entry)),
        ranked_with(ranking, entry).to_multiset() == ranking.to_multiset().insert(entry),
        ranked_with(ranking, entry).len() == ranking.len() + 1,
    decreases ranking.len(),
{
    broadcast use vstd::seq_lib::group_to_multiset_ensures;

    let result = ranked_with(ranking, entry);
    if ranking.len() == 0 {
        assert(result =~= ranking.push(entry));
        assert(Seq::<(nat, Seq<char>)>::empty().push(entry) =~= result);
    } else if ranks_before(entry, ranking[0]) {
        assert(result =~= seq![entry] + ranking);
        vstd::seq_lib::lemma_multiset_commutative(seq![entry], ranking);
        assert(seq![entry] =~= Seq::<(nat, Seq<char>)>::empty().push(entry));
        assert(result.to_multiset() =~= ranking.to_multiset().insert(entry));
        assert forall|i: int, j: int| 0 <= i < j < result.len() implies !ranks_before(
            #[trigger] result[j],
            #[trigger] result[i],
        ) by {
            if i == 0 {
                assert(result[j] == ranking[j - 1]);
                if j > 1 {
                    assert(!ranks_before(ranking[j - 1], ranking[0]));
                }
                lemma_before_total(ranking[0].1, ranking[0].1);
                lemma_ranks_transitive(entry, ranking[0], ranking[j - 1]);
            } else {
                assert(result[i] == ranking[i - 1] && result[j] == ranking[j - 1]);
            }
        }
    } else {
        let rest = ranking.skip(1);
        assert forall|i: int, j: int| 0 <= i < j < rest.len() implies !ranks_before(
            #[trigger] rest[j],
            #[trigger] rest[i],
        ) by {
            assert(rest[i] == ranking[i + 1] && rest[j] == ranking[j + 1]);
        }
        lemma_ranked_with(rest, entry);
        let tail = ranked_with(rest, entry);
        assert(result =~= seq![ranking[0]] + tail);
        assert(ranking =~= seq![ranking[0]] + rest);
        vstd::seq_lib::lemma_multiset_commutative(seq![ranking[0]], tail);
        vstd::seq_lib::lemma_multiset_commutative(seq![ranking[0]], rest);
        assert(result.to_multiset() =~= ranking.to_multiset().insert(entry));
        assert forall|i: int, j: int| 0 <= i < j < result.len() implies !ranks_before(
            #[trigger] result[j],
            #[trigger] result[i],
        ) by {
            assert(result[j] == tail[j - 1]);
            if i == 0 {
                assert(tail.contains(tail[j - 1]));
                assert(tail.to_multiset().contains(tail[j - 1]));
                assert(rest.to_multiset().insert(entry).contains(tail[j - 1]));
                if tail[j - 1] != entry {
                    assert(rest.to_multiset().contains(tail[j - 1]));
                    assert(rest.contains(tail[j - 1]));
                    let k = choose|k: int| 0 <= k < rest.len() && rest[k] == tail[j - 1];
                    assert(ranking[k + 1] == tail[j - 1]);
                    assert(!ranks_before(ranking[k + 1], ranking[0]));
                }
            } else {
                assert(result[i] == tail[i - 1]);
            }
        }
    }
}

/// The scored paths of files, in the order of the files.
pub open spec fn scored_paths(files: Seq<RelevantFileContextView>, terms: Seq<Seq<char>>) -> Seq<
    (nat, Seq<char>),
>
    decreases files.len(),
{
    if files.len() == 0 {
        Seq::empty()
    } else {
        let before = scored_paths(files.drop_last(), terms);
        let score = score_of(files.last(), terms);
        if score > 0 {
            before.push((score, files.last().path))
        } else {
            before
        }
    }
}

/// The ranking holds exactly the files that have a score, and it is in order.
pub proof fn lemma_ranking(files: Seq<RelevantFileContextView>, terms: Seq<Seq<char>>)
    ensures
        in_rank_order(ranking_of(files, terms)),
        ranking_of(files, terms).to_multiset() == scored_paths(files, terms).to_multiset(),
    decreases files.len(),
{
    broadcast use vstd::seq_lib::group_to_multiset_ensures;

    if files.len() > 0 {
        lemma_ranking(files.drop_last(), terms);
        let score = score_of(files.last(), terms);
        if score > 0 {
            lemma_ranked_with(
                ranking_of(files.drop_last(), terms),
                (score, files.last().path),
            );
        }
    }
}

/// Of two scored paths, one comes before the other or they are the same.
proof fn lemma_ranks_total(a: (nat, Seq<char>), b: (nat, Seq<char>))
    ensures
        ranks_before(a, b) || ranks_before(b, a) || a == b,
{
    lemma_before_total(a.1, b.1);
}

/// What a ranking holds says in which order it stands.
proof fn lemma_rank_order_unique(a: Seq<(nat, Seq<char>)>, b: Seq<(nat, Seq<char>)>)
    requires
        in_rank_order(a),
        in_rank_order(b),
        a.to_multiset() == b.to_multiset(),
    ensures
        a == b,
    decreases a.len(),
{
    broadcast use vstd::seq_lib::group_to_multiset_ensures;

    assert(a.len() == a.to_multiset().len());
    assert(b.len() == b.to_multiset().len());
    if a.len() == 0 {
        assert(a =~= b);
    } else {
        let (x, y) = (a.last(), b.last());
        assert(a.to_multiset().contains(x)) by {
            assert(a.contains(x));
        }
        assert(b.to_multiset().contains(y)) by {
            assert(b.contains(y));
        }
        assert(b.contains(x));
        assert(a.contains(y));
        let i = choose|i: int| 0 <= i < b.len() && b[i] == x;
        let j = choose|j: int| 0 <= j < a.len() && a[j] == y;
        assert(x == y) by {
            lemma_ranks_total(x, y);
            if i < b.len() - 1 {
                assert(!ranks_before(b[b.len() - 1], b[i]));
            }
            if j < a.len() - 1 {
                assert(!ranks_before(a[a.len() - 1], a[j]));
            }
        }
        assert(a =~= a.drop_last().push(x));
        assert(b =~= b.drop_last().push(x));
        assert(a.drop_last().to_multiset() =~= a.to_multiset().remove(x));
        assert(b.drop_last().to_multiset() =~= b.to_multiset().remove(x));
        assert(in_rank_order(a.drop_last())) by {
            assert forall|i: int, j: int| 0 <= i < j < a.len() - 1 implies !ranks_before(
                #[trigger] a.drop_last()[j],
                #[trigger] a.drop_last()[i],
            ) by {
                assert(!ranks_before(a[j], a[i]));
            }
        }
        assert(in_rank_order(b.drop_last())) by {
            assert forall|i: int, j: int| 0 <= i < j < b.len() - 1 implies !ranks_before(
                #[trigger] b.drop_last()[j],
                #[trigger] b.drop_last()[i],
            ) by {
                assert(!ranks_before(b[j], b[i]));
            }
        }
        lemma_rank_order_unique(a.drop_last(), b.drop_last());
    }
}

/// Removing a file removes its scored path.
proof fn lemma_scored_without(files: Seq<RelevantFileContextView>, terms: Seq<Seq<char>>, i: int)
    requires
        0 <= i < files.len(),
    ensures
        scored_paths(files, terms).to_multiset() == if score_of(files[i], terms) > 0 {
            scored_paths(files.remove(i), terms).to_multiset().insert(
                (score_of(files[i], terms), files[i].path),
            )
        } else {
            scored_paths(files.remove(i), terms).to_multiset()
        },
    decreases files.len(),
{
    broadcast use vstd::seq_lib::group_to_multiset_ensures;

    if i == files.len() - 1 {
        assert(files.remove(i) =~= files.drop_last());
    } else {
        lemma_scored_without(files.drop_last(), terms, i);
        assert(files.remove(i).drop_last() =~= files.drop_last().remove(i));
        assert(files.remove(i).last() == files.last());
        let score = score_of(files.last(), terms);
        let one = (score_of(files[i], terms), files[i].path);
        let rest = scored_paths(files.drop_last().remove(i), terms).to_multiset();
        assert(rest.insert(one).insert((score, files.last().path)) =~= rest.insert(
            (score, files.last().path),
        ).insert(one));
    }
}

/// The scored paths do not depend on the order of the files.
proof fn lemma_scored_paths(
    files: Seq<RelevantFileContextView>,
    others: Seq<RelevantFileContextView>,
    terms: Seq<Seq<char>>,
)
    requires
        files.to_multiset() == others.to_multiset(),
    ensures
        scored_paths(files, terms).to_multiset() == scored_paths(others, terms).to_multiset(),
    decreases files.len(),
{
    broadcast use vstd::seq_lib::group_to_multiset_ensures;

    assert(files.len() == files.to_multiset().len());
    assert(others.len() == others.to_multiset().len());
    if files.len() == 0 {
        assert(files =~= others);
    } else {
        let file = files.last();
        assert(files.to_multiset().contains(file)) by {
            assert(files.contains(file));
        }
        assert(others.contains(file));
        let i = choose|i: int| 0 <= i < others.len() && others[i] == file;
        assert(files =~= files.drop_last().push(file));
        assert(files.drop_last().to_multiset() =~= files.to_multiset().remove(file));
        assert(others.remove(i).to_multiset() =~= others.to_multiset().remove(file));
        lemma_scored_paths(files.drop_last(), others.remove(i), terms);
        lemma_scored_without(files, terms, files.len() - 1);
        assert(files.remove(files.len() - 1) =~= files.drop_last());
        lemma_scored_without(others, terms, i);
    }
}

/// Where the query has terms, the order in which the files are given does not matter.
pub proof fn lemma_order_of_files_does_not_matter(
    request: GetRelevantFilesRequestView,
    other: GetRelevantFilesRequestView,
)
    requires
        terms_of(request.query).len() > 0,
        other.query == request.query,
        other.files.to_multiset() == request.files.to_multiset(),
    ensures
        relevant_files(other) == relevant_files(request),
{
    let terms = terms_of(request.query);
    lemma_ranking(request.files, terms);
    lemma_ranking(other.files, terms);
    lemma_scored_paths(request.files, other.files, terms);
    lemma_rank_order_unique(
        ranking_of(request.files, terms),
        ranking_of(other.files, terms),
    );
}

/// At most twelve files are given, and at most eight where the query has no terms.
pub proof fn lemma_relevant_files_are_few(request: GetRelevantFilesRequestView)
    ensures
        relevant_files(request).len() <= 12,
        terms_of(request.query).len() == 0 ==> relevant_files(request).len() <= 8,
{
}

/// The first twelve of a ranking depend on the first twelve before.
proof fn lemma_best_suffice(ranking: Seq<(nat, Seq<char>)>, entry: (nat, Seq<char>), n: int)
    requires
        0 <= n,
    ensures
        first_n(ranked_with(ranking, entry), n) == first_n(
            ranked_with(first_n(ranking, n), entry),
            n,
        ),
    decreases ranking.len(),
{
    if ranking.len() > n {
        if n == 0 {
            assert(first_n(ranked_with(ranking, entry), 0) =~= first_n(
                ranked_with(first_n(ranking, 0), entry),
                0,
            )) by {
                lemma_ranked_len(ranking, entry);
                lemma_ranked_len(first_n(ranking, 0), entry);
            }
        } else {
            let best = ranking.take(n);
            assert(best[0] == ranking[0]);
            if ranks_before(entry, ranking[0]) {
                assert((seq![entry] + ranking).take(n) =~= (seq![entry] + best).take(n));
            } else {
                lemma_best_suffice(ranking.skip(1), entry, n - 1);
                assert(best.skip(1) =~= ranking.skip(1).take(n - 1));
                lemma_ranked_len(ranking.skip(1), entry);
                lemma_ranked_len(best.skip(1), entry);
                let a = ranked_with(ranking.skip(1), entry);
                let b = ranked_with(best.skip(1), entry);
                assert((seq![ranking[0]] + a).take(n) =~= seq![ranking[0]] + a.take(n - 1));
                assert((seq![ranking[0]] + b).take(n) =~= seq![ranking[0]] + b.take(n - 1));
            }
        }
    }
}

proof fn lemma_ranked_len(ranking: Seq<(nat, Seq<char>)>, entry: (nat, Seq<char>))
    ensures
        ranked_with(ranking, entry).len() == ranking.len() + 1,
    decreases ranking.len(),
{
    if ranking.len() > 0 && !ranks_before(entry, ranking[0]) {
        lemma_ranked_len(ranking.skip(1), entry);
    }
}

/// The model of scored paths.
pub open spec fn scores_view(entries: Seq<(u128, String)>) -> Seq<(nat, Seq<char>)> {
    Seq::new(entries.len(), |i: int| (entries[i].0 as nat, entries[i].1@))
}

/// Whether a scored path comes before another.
fn comes_before(a_score: u128, a: &str, b_score: u128, b: &str) -> (r: bool)
    ensures
        r == ranks_before((a_score as nat, a@), (b_score as nat, b@)),
{
    if a_score != b_score {
        return a_score > b_score;
    }
    let a_len = a.as_bytes().len();
    let b_len = b.as_bytes().len();
    if a_len != b_len {
        return a_len < b_len;
    }
    is_before(a, b)
}

/// Puts a scored path at its place among the best, and drops what is then too much.
fn rank_entry(best: &mut Vec<(u128, String)>, score: u128, path: String, count: usize)
    requires
        old(best)@.len() <= count,
        count < usize::MAX,
    ensures
        scores_view(final(best)@) == first_n(
            ranked_with(scores_view(old(best)@), (score as nat, path@)),
            count as int,
        ),
        final(best)@.len() <= count,
{
    let ghost all = scores_view(best@);
    let ghost entry = (score as nat, path@);
    let ghost whole = ranked_with(all, entry);
    let mut i: usize = 0;
    assert(all.skip(0) == all);
    assert(all.take(0) + ranked_with(all, entry) =~= whole);
    while i < best.len() && !comes_before(score, path.as_str(), best[i].0, best[i].1.as_str())
        invariant
            i <= best.len(),
            all == scores_view(best@),
            entry == (score as nat, path@),
            all.take(i as int) + ranked_with(all.skip(i as int), entry) == whole,
        decreases best.len() - i,
    {
        let ghost rest = all.skip(i as int);
        assert(rest[0] == all[i as int]);
        assert(rest.skip(1) =~= all.skip(i + 1));
        assert(all.take(i as int) + (seq![rest[0]] + ranked_with(rest.skip(1), entry)) =~= all.take(
            i + 1,
        ) + ranked_with(rest.skip(1), entry));
        i += 1;
    }
    proof {
        let rest = all.skip(i as int);
        if i < best.len() {
            assert(rest[0] == all[i as int]);
        }
        assert(ranked_with(rest, entry) =~= seq![entry] + rest);
    }
    best.insert(i, (score, path));
    assert(scores_view(best@) =~= all.take(i as int) + (seq![entry] + all.skip(i as int)));
    if best.len() > count {
        best.truncate(count);
        assert(scores_view(best@) =~= whole.take(count as int));
    }
}

/// The files that matter to a query.
pub fn rank_relevant_files(request: &GetRelevantFilesRequest) -> (r: Vec<String>)
    ensures
        views(r@) == relevant_files(request@),
{
    let terms = tokenize_for_ranking(request.query.as_str());
    let files = &request.files;
    let ghost all = views(files@);
    let mut paths: Vec<String> = Vec::new();
    if terms.len() == 0 {
        let count: usize = if files.len() > 8 {
            8
        } else {
            files.len()
        };
        let mut i: usize = 0;
        while i < count
            invariant
                i <= count <= files.len(),
                paths.len() == i,
                forall|k: int| 0 <= k < i ==> (#[trigger] paths@[k])@ == files@[k].path@,
            decreases count - i,
        {
            paths.push(files[i].path.clone());
            i += 1;
        }
        assert(views(paths@) =~= paths_of(first_n(all, 8)));
        return paths;
    }
    let ghost words = views(terms@);
    let mut best: Vec<(u128, String)> = Vec::new();
    let mut i: usize = 0;
    assert(scores_view(best@) =~= first_n(ranking_of(all.take(0), words), 12));
    while i < files.len()
        invariant
            i <= files.len(),
            all == views(files@),
            words == views(terms@),
            best@.len() <= 12,
            scores_view(best@) == first_n(ranking_of(all.take(i as int), words), 12),
        decreases files.len() - i,
    {
        assert(all.take(i + 1).drop_last() == all.take(i as int));
        let score = score_file(&files[i], &terms);
        if score > 0 {
            proof {
                lemma_best_suffice(
                    ranking_of(all.take(i as int), words),
                    (score as nat, all[i as int].path),
                    12,
                );
            }
            rank_entry(&mut best, score, files[i].path.clone(), 12);
        }
        i += 1;
    }
    assert(all.take(all.len() as int) == all);
    let mut i: usize = 0;
    while i < best.len()
        invariant
            i <= best.len(),
            paths.len() == i,
            forall|k: int| 0 <= k < i ==> (#[trigger] paths@[k])@ == best@[k].1@,
        decreases best.len() - i,
    {
        paths.push(best[i].1.clone());
        i += 1;
    }
    assert(views(paths@) =~= ranked_paths(scores_view(best@)));
    paths
}

// ---------------------------------------------------------------------------------------------
// What a query finds
// ---------------------------------------------------------------------------------------------
/// Every term of a query counts, wherever it stands in the query: the scores for terms add up.
pub proof fn lemma_scores_add_up(
    file: RelevantFileContextView,
    first: Seq<Seq<char>>,
    second: Seq<Seq<char>>,
)
    ensures
        score_of(file, first + second) == score_of(file, first) + score_of(file, second),
        score_of(file, Seq::empty()) == 0,
    decreases second.len(),
{
    if second.len() == 0 {
        assert(first + second =~= first);
    } else {
        assert((first + second).drop_last() =~= first + second.drop_last());
        lemma_scores_add_up(file, first, second.drop_last());
    }
}

/// A term counts eight in the name of a file, four in its path, and two in its symbols.
pub proof fn lemma_score_of_a_term(
    file: RelevantFileContextView,
    folder: Seq<char>,
    name: Seq<char>,
    term: Seq<char>,
)
    requires
        file.path == folder + name,
        folder.len() == 0 || folder.last() == '/',
        forall|i: int| 0 <= i < name.len() ==> #[trigger] name[i] != '/',
    ensures
        score_of(file, seq![term]) == (if holds_text(lowered(name), term) {
            8int
        } else {
            0
        }) + (if holds_text(lowered(file.path), term) {
            4int
        } else {
            0
        }) + (if holds_text(lowered(file.symbols), term) {
            2int
        } else {
            0
        }),
{
    assert(seq![term].drop_last() =~= Seq::<Seq<char>>::empty());
    assert(score_of(file, seq![term].drop_last()) == 0);
    assert(lowered(file.path) =~= lowered(folder) + lowered(name));
    assert forall|i: int| 0 <= i < lowered(name).len() implies #[trigger] lowered(name)[i] != '/' by {
        assert(name[i] != '/');
    }
    lemma_file_name(lowered(folder), lowered(name));
}

proof fn lemma_file_name(folder: Seq<char>, name: Seq<char>)
    requires
        folder.len() == 0 || folder.last() == '/',
        forall|i: int| 0 <= i < name.len() ==> #[trigger] name[i] != '/',
    ensures
        file_name_of(folder + name) == name,
    decreases name.len(),
{
    if name.len() == 0 {
        assert(folder + name =~= folder);
        assert(file_name_of(folder) =~= name);
    } else {
        assert((folder + name).last() == name[name.len() - 1]);
        assert((folder + name).drop_last() =~= folder + name.drop_last());
        lemma_file_name(folder, name.drop_last());
        assert(name.drop_last().push(name.last()) =~= name);
    }
}

/// A file that any term of a query stands in has a score, and one that none stands in has none.
pub proof fn lemma_any_term_counts(
    file: RelevantFileContextView,
    terms: Seq<Seq<char>>,
    i: int,
)
    ensures
        0 <= i < terms.len() && (holds_text(lowered(file.path), terms[i]) || holds_text(
            lowered(file.symbols),
            terms[i],
        )) ==> score_of(file, terms) > 0,
        (forall|k: int|
            0 <= k < terms.len() ==> !holds_text(lowered(file.path), #[trigger] terms[k])
                && !holds_text(lowered(file.symbols), terms[k])) ==> score_of(file, terms) == 0,
    decreases terms.len(),
{
    if terms.len() > 0 {
        lemma_any_term_counts(file, terms.drop_last(), i);
        if 0 <= i < terms.len() - 1 {
            assert(terms.drop_last()[i] == terms[i]);
        }
        if forall|k: int|
            0 <= k < terms.len() ==> !holds_text(lowered(file.path), #[trigger] terms[k])
                && !holds_text(lowered(file.symbols), terms[k]) {
            assert forall|k: int| 0 <= k < terms.drop_last().len() implies !holds_text(
                lowered(file.path),
                #[trigger] terms.drop_last()[k],
            ) && !holds_text(lowered(file.symbols), terms.drop_last()[k]) by {
                assert(terms.drop_last()[k] == terms[k]);
            }
            assert(!holds_text(lowered(file.path), terms[terms.len() - 1]));
            lemma_name_is_in_path(lowered(file.path), terms.last());
        }
    }
}

/// What stands in the name of a file stands in its path.
proof fn lemma_name_is_in_path(path: Seq<char>, term: Seq<char>)
    ensures
        holds_text(file_name_of(path), term) ==> holds_text(path, term),
{
    lemma_name_ends_path(path);
    let name = file_name_of(path);
    if holds_text(name, term) {
        let i = choose|i: int| stands_at(name, term, i);
        let k = path.len() - name.len();
        assert(path.subrange(k + i, k + i + term.len()) =~= name.subrange(i, i + term.len()));
        assert(stands_at(path, term, k + i));
    }
}

proof fn lemma_name_ends_path(path: Seq<char>)
    ensures
        file_name_of(path).len() <= path.len(),
        path.skip(path.len() - file_name_of(path).len()) == file_name_of(path),
    decreases path.len(),
{
    if path.len() == 0 || path.last() == '/' {
        assert(path.skip(path.len() as int) =~= Seq::<char>::empty());
    } else {
        lemma_name_ends_path(path.drop_last());
        let name = file_name_of(path.drop_last());
        assert(path.skip(path.len() - 1 - name.len()) =~= path.drop_last().skip(
            path.len() - 1 - name.len(),
        ).push(path.last()));
    }
}

/// Whether a file has something to do with a query: a term of the query stands in its path or in
/// its symbols, in any case of the letters.
pub open spec fn matches_query(file: RelevantFileContextView, query: Seq<char>) -> bool {
    exists|k: int|
        0 <= k < terms_of(query).len() && (holds_text(
            lowered(file.path),
            #[trigger] terms_of(query)[k],
        ) || holds_text(lowered(file.symbols), terms_of(query)[k]))
}

/// The files that are found are files of the request that match the query, and where there are at
/// most twelve of them, all that match it are found.
pub proof fn lemma_what_is_found(request: GetRelevantFilesRequestView, i: int, k: int)
    requires
        terms_of(request.query).len() > 0,
    ensures
        0 <= i < request.files.len() <= 12 && matches_query(request.files[i], request.query)
            ==> relevant_files(request).contains(request.files[i].path),
        0 <= k < relevant_files(request).len() ==> exists|j: int|
            0 <= j < request.files.len() && (#[trigger] request.files[j]).path == relevant_files(
                request,
            )[k] && matches_query(request.files[j], request.query),
{
    broadcast use vstd::seq_lib::group_to_multiset_ensures;

    let terms = terms_of(request.query);
    let files = request.files;
    let ranking = ranking_of(files, terms);
    lemma_ranking(files, terms);
    lemma_scored(files, terms);
    if 0 <= i < files.len() <= 12 && matches_query(files[i], request.query) {
        let t = choose|t: int|
            0 <= t < terms.len() && (holds_text(lowered(files[i].path), #[trigger] terms[t])
                || holds_text(lowered(files[i].symbols), terms[t]));
        lemma_any_term_counts(files[i], terms, t);
        let entry = (score_of(files[i], terms), files[i].path);
        assert(scored_paths(files, terms).contains(entry));
        assert(scored_paths(files, terms).to_multiset().contains(entry));
        assert(ranking.contains(entry));
        let m = choose|m: int| 0 <= m < ranking.len() && ranking[m] == entry;
        assert(ranking.len() == ranking.to_multiset().len());
        assert(relevant_files(request)[m] == files[i].path);
    }
    if 0 <= k < relevant_files(request).len() {
        let entry = ranking[k];
        assert(ranking.contains(entry));
        assert(ranking.to_multiset().contains(entry));
        assert(scored_paths(files, terms).contains(entry));
        let m = choose|m: int|
            0 <= m < scored_paths(files, terms).len() && scored_paths(files, terms)[m] == entry;
        let j = choose|j: int|
            0 <= j < files.len() && (#[trigger] files[j]).path == scored_paths(files, terms)[m].1
                && score_of(files[j], terms) > 0;
        lemma_any_term_counts(files[j], terms, 0);
    }
}

/// The scored paths are those of the files that have a score, at most one for each file.
proof fn lemma_scored(files: Seq<RelevantFileContextView>, terms: Seq<Seq<char>>)
    ensures
        scored_paths(files, terms).len() <= files.len(),
        forall|i: int|
            0 <= i < files.len() && score_of(#[trigger] files[i], terms) > 0 ==> scored_paths(
                files,
                terms,
            ).contains((score_of(files[i], terms), files[i].path)),
        forall|m: int|
            0 <= m < scored_paths(files, terms).len() ==> exists|j: int|
                0 <= j < files.len() && (#[trigger] files[j]).path == (#[trigger] scored_paths(
                    files,
                    terms,
                )[m]).1 && score_of(files[j], terms) > 0 && score_of(files[j], terms)
                    == scored_paths(files, terms)[m].0,
    decreases files.len(),
{
    if files.len() > 0 {
        let rest = files.drop_last();
        let before = scored_paths(rest, terms);
        let all = scored_paths(files, terms);
        lemma_scored(rest, terms);
        assert forall|i: int| 0 <= i < files.len() && score_of(
            #[trigger] files[i],
            terms,
        ) > 0 implies all.contains((score_of(files[i], terms), files[i].path)) by {
            let entry = (score_of(files[i], terms), files[i].path);
            if i < rest.len() {
                assert(rest[i] == files[i]);
                let m = choose|m: int| 0 <= m < before.len() && before[m] == entry;
                assert(all[m] == entry);
            } else {
                assert(all[all.len() - 1] == entry);
            }
        }
        assert forall|m: int| 0 <= m < all.len() implies exists|j: int|
            0 <= j < files.len() && (#[trigger] files[j]).path == (#[trigger] all[m]).1 && score_of(
                files[j],
                terms,
            ) > 0 && score_of(files[j], terms) == all[m].0 by {
            if m < before.len() {
                assert(all[m] == before[m]);
                let j = choose|j: int|
                    0 <= j < rest.len() && (#[trigger] rest[j]).path == before[m].1 && score_of(
                        rest[j],
                        terms,
                    ) > 0 && score_of(rest[j], terms) == before[m].0;
                assert(files[j] == rest[j]);
            } else {
                assert(files[files.len() - 1] == files.last());
            }
        }
    }
}

/// The better a file matches, the earlier it stands: by its score, then by the shorter path, then
/// by the order of the paths. What is left out behind the twelfth is not better than what is given.
pub proof fn lemma_better_files_come_first(
    request: GetRelevantFilesRequestView,
    i: int,
    j: int,
)
    requires
        terms_of(request.query).len() > 0,
        0 <= i < j < ranking_of(request.files, terms_of(request.query)).len(),
    ensures
        ({
            let ranking = ranking_of(request.files, terms_of(request.query));
            &&& ranking[i].0 >= ranking[j].0
            &&& ranking[i].0 == ranking[j].0 ==> encode_utf8(ranking[i].1).len() <= encode_utf8(
                ranking[j].1,
            ).len()
            &&& ranking[i].0 == ranking[j].0 && encode_utf8(ranking[i].1).len() == encode_utf8(
                ranking[j].1,
            ).len() ==> ranking[i].1 == ranking[j].1 || text_before(ranking[i].1, ranking[j].1)
            &&& i < 12 ==> i < relevant_files(request).len() && relevant_files(request)[i]
                == ranking[i].1
            &&& ranking.len() <= 12 ==> relevant_files(request).len() == ranking.len()
        }),
{
    let terms = terms_of(request.query);
    lemma_ranking(request.files, terms);
    let ranking = ranking_of(request.files, terms);
    assert(!ranks_before(ranking[j], ranking[i]));
    lemma_before_total(ranking[i].1, ranking[j].1);
}

/// Of two files that match, the one with the higher score is given first, in whatever order they
/// are asked about.
pub proof fn lemma_two_files(request: GetRelevantFilesRequestView)
    requires
        terms_of(request.query).len() > 0,
        request.files.len() == 2,
        score_of(request.files[0], terms_of(request.query)) > score_of(
            request.files[1],
            terms_of(request.query),
        ) > 0 || 0 < score_of(request.files[0], terms_of(request.query)) < score_of(
            request.files[1],
            terms_of(request.query),
        ),
    ensures
        relevant_files(request).len() == 2,
        score_of(request.files[0], terms_of(request.query)) > score_of(
            request.files[1],
            terms_of(request.query),
        ) ==> relevant_files(request) == seq![request.files[0].path, request.files[1].path],
        score_of(request.files[0], terms_of(request.query)) < score_of(
            request.files[1],
            terms_of(request.query),
        ) ==> relevant_files(request) == seq![request.files[1].path, request.files[0].path],
{
    let terms = terms_of(request.query);
    let files = request.files;
    reveal_with_fuel(ranking_of, 3);
    reveal_with_fuel(ranked_with, 3);
    assert(files.drop_last().drop_last().len() == 0);
    assert(files.drop_last().last() == files[0]);
    let first = (score_of(files[0], terms), files[0].path);
    let second = (score_of(files[1], terms), files[1].path);
    assert(ranking_of(files.drop_last(), terms) =~= seq![first]);
    assert(seq![first].skip(1) =~= Seq::<(nat, Seq<char>)>::empty());
    if first.0 > second.0 {
        assert(ranking_of(files, terms) =~= seq![first, second]);
        assert(relevant_files(request) =~= seq![files[0].path, files[1].path]);
    } else {
        assert(ranking_of(files, terms) =~= seq![second, first]);
        assert(relevant_files(request) =~= seq![files[1].path, files[0].path]);
    }
}

/// Where a query has no terms, the first files are given in their order.
pub proof fn lemma_without_terms(request: GetRelevantFilesRequestView, i: int)
    requires
        terms_of(request.query).len() == 0,
    ensures
        request.files.len() <= 8 ==> relevant_files(request).len() == request.files.len(),
        request.files.len() > 8 ==> relevant_files(request).len() == 8,
        0 <= i < relevant_files(request).len() ==> relevant_files(request)[i]
            == request.files[i].path,
{
}

/// The terms of a query are its words in lower case, in their order; a character that belongs to no
/// word parts them, and a word of one character is none.
pub proof fn lemma_terms_of_query(word: Seq<char>, c: char, first: Seq<char>, second: Seq<char>)
    requires
        forall|i: int|
            0 <= i < word.len() ==> ascii_alphanumeric(#[trigger] word[i]) || word[i] == '_'
                || word[i] == '-',
        !ascii_alphanumeric(c) && c != '_' && c != '-',
    ensures
        word.len() >= 2 ==> terms_of(word) == seq![lowered(word)],
        word.len() < 2 ==> terms_of(word) == Seq::<Seq<char>>::empty(),
        terms_of(first + seq![c] + second) == terms_of(first) + terms_of(second),
{
    let class = CharClass::NotWord;
    assert forall|i: int| 0 <= i < word.len() implies !class.has(#[trigger] word[i]) by {}
    lemma_one_piece(word, class);
    assert(seq![word].drop_last() =~= Seq::<Seq<char>>::empty());
    assert(long_pieces(seq![word].drop_last()) =~= Seq::<Seq<char>>::empty());
    assert(Seq::<Seq<char>>::empty().push(lowered(word)) =~= seq![lowered(word)]);
    lemma_pieces_follow(first, c, second, class);
    lemma_long_pieces(pieces_of(first, class), pieces_of(second, class));
}

proof fn lemma_long_pieces(first: Seq<Seq<char>>, second: Seq<Seq<char>>)
    ensures
        long_pieces(first + second) == long_pieces(first) + long_pieces(second),
    decreases second.len(),
{
    if second.len() == 0 {
        assert(first + second =~= first);
        assert(long_pieces(first) + long_pieces(second) =~= long_pieces(first));
    } else {
        assert((first + second).drop_last() =~= first + second.drop_last());
        lemma_long_pieces(first, second.drop_last());
        assert(long_pieces(first + second) =~= long_pieces(first) + long_pieces(second));
    }
}

} // verus!
