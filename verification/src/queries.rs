//! Suggesting queries to the agent.
use crate::ids::{fresh_id, new_id};
use crate::json::{find_json, json_in, Json, JsonView};
use crate::lists::or_empty;
use crate::suggest::{strip_code_fences, without_fences};
use crate::text::{
    blank, has_prefix, lemma_lines_follow, lemma_nothing_to_trim, lemma_prefixes_are_cut_off,
    lemma_trimmed_blank, lemma_trimming, lines, lines_of, opt_view, starts_with, strip_prefixes,
    text_or_empty, trim, trim_class, trim_end_of, trim_start_of, trimmed, trimmed_of, views,
    views_opt, white, without_prefixes, CharClass,
};
use crate::titles::{find_first_line, first_line};
use vstd::prelude::*;

verus! {

/// A suggested query.
#[derive(Debug)]
pub struct AMSimpleQuery {
    pub query: String,
    pub should_plan_task: bool,
}

/// The model of [`AMSimpleQuery`].
#[verifier::ext_equal]
pub struct AMSimpleQueryView {
    pub query: Seq<char>,
    pub should_plan_task: bool,
}

impl View for AMSimpleQuery {
    type V = AMSimpleQueryView;

    open spec fn view(&self) -> AMSimpleQueryView {
        AMSimpleQueryView {
            query: self.query@,
            should_plan_task: self.should_plan_task,
        }
    }
}

/// Places in a file.
#[derive(Debug)]
pub struct AMGeneratedFileLocations {
    pub file_name: String,
    pub line_numbers: Option<Vec<usize>>,
}

/// The model of [`AMGeneratedFileLocations`].
#[verifier::ext_equal]
pub struct AMGeneratedFileLocationsView {
    pub file_name: Seq<char>,
    pub line_numbers: Option<Seq<usize>>,
}

impl View for AMGeneratedFileLocations {
    type V = AMGeneratedFileLocationsView;

    open spec fn view(&self) -> AMGeneratedFileLocationsView {
        AMGeneratedFileLocationsView {
            file_name: self.file_name@,
            line_numbers: views_opt(self.line_numbers),
        }
    }
}

/// A suggested query about code.
#[derive(Debug)]
pub struct AMCodingQuery {
    pub files: Vec<AMGeneratedFileLocations>,
    pub query: String,
}

/// The model of [`AMCodingQuery`].
#[verifier::ext_equal]
pub struct AMCodingQueryView {
    pub files: Seq<AMGeneratedFileLocationsView>,
    pub query: Seq<char>,
}

impl View for AMCodingQuery {
    type V = AMCodingQueryView;

    open spec fn view(&self) -> AMCodingQueryView {
        AMCodingQueryView {
            files: views(self.files@),
            query: self.query@,
        }
    }
}

/// A suggestion: a query, or a query about code.
#[derive(Debug)]
pub enum AMSuggestion {
    Simple(AMSimpleQuery),
    Coding(AMCodingQuery),
}

/// The model of [`AMSuggestion`].
#[verifier::ext_equal]
pub enum AMSuggestionView {
    Simple(AMSimpleQueryView),
    Coding(AMCodingQueryView),
}

impl View for AMSuggestion {
    type V = AMSuggestionView;

    open spec fn view(&self) -> AMSuggestionView {
        match self {
            AMSuggestion::Simple(x) => AMSuggestionView::Simple(x@),
            AMSuggestion::Coding(x) => AMSuggestionView::Coding(x@),
        }
    }
}

/// A suggested query, where there is one, and the identifier of the answer.
#[derive(Debug)]
pub struct GenerateAMQuerySuggestionsResponse {
    pub id: String,
    pub suggestion: Option<AMSuggestion>,
}

/// The model of [`GenerateAMQuerySuggestionsResponse`].
#[verifier::ext_equal]
pub struct GenerateAMQuerySuggestionsResponseView {
    pub id: Seq<char>,
    pub suggestion: Option<AMSuggestionView>,
}

impl View for GenerateAMQuerySuggestionsResponse {
    type V = GenerateAMQuerySuggestionsResponseView;

    open spec fn view(&self) -> GenerateAMQuerySuggestionsResponseView {
        GenerateAMQuerySuggestionsResponseView {
            id: self.id@,
            suggestion: opt_view(self.suggestion),
        }
    }
}

/// The first line of a query, without quotes, bullets and white space around it.
pub open spec fn query_line(query: Seq<char>) -> Seq<char> {
    let query = trimmed(
        without_prefixes(trimmed_of(trimmed(query), CharClass::Is('"')), "- "@),
    );
    let lines = lines_of(query);
    if lines.len() == 0 {
        Seq::empty()
    } else {
        trimmed(lines[0])
    }
}

/// The first line of a query, without quotes, bullets and white space around it.
pub fn clean_query_line(query: &str) -> (r: String)
    ensures
        r@ == query_line(query@),
{
    proof {
        reveal_strlit("- ");
    }
    let query = trim(strip_prefixes(trim_class(trim(query), CharClass::Is('"')), "- "));
    let lines = lines(query);
    if lines.len() == 0 {
        let r = String::new();
        assert(r@ =~= Seq::<char>::empty());
        r
    } else {
        trim(lines[0].as_str()).to_owned()
    }
}

/// The text of a member of a member.
pub open spec fn text_within(
    value: JsonView,
    outer: Seq<char>,
    inner: Seq<char>,
) -> Option<Seq<char>> {
    match value.get(outer) {
        Some(member) => member.get_str(inner),
        None => None,
    }
}

/// The query that a value holds: its own, that of its simple form, or that of its suggestion.
pub open spec fn query_in_value(value: JsonView) -> Option<Seq<char>> {
    let nested = match value.get("suggestion"@) {
        Some(suggestion) => text_within(suggestion, "simple"@, "query"@),
        None => None,
    };
    match (
        value.get_str("query"@),
        text_within(value, "simple"@, "query"@),
        text_within(value, "suggestion"@, "query"@),
    ) {
        (Some(query), _, _) => Some(query),
        (None, Some(query), _) => Some(query),
        (None, None, Some(query)) => Some(query),
        (None, None, None) => nested,
    }
}

/// The text of a member of a member.
fn find_text_within<'a>(value: &'a Json, outer: &str, inner: &str) -> (r: Option<&'a str>)
    ensures
        opt_view(r) == text_within(value@, outer@, inner@),
{
    match value.get(outer) {
        Some(member) => member.get_str(inner),
        None => None,
    }
}

/// The query that a value holds.
pub fn query_from_json_value<'a>(value: &'a Json) -> (r: Option<&'a str>)
    ensures
        opt_view(r) == query_in_value(value@),
{
    match value.get_str("query") {
        Some(query) => {
            return Some(query);
        },
        None => {},
    }
    match find_text_within(value, "simple", "query") {
        Some(query) => {
            return Some(query);
        },
        None => {},
    }
    match find_text_within(value, "suggestion", "query") {
        Some(query) => {
            return Some(query);
        },
        None => {},
    }
    match value.get("suggestion") {
        Some(suggestion) => find_text_within(suggestion, "simple", "query"),
        None => None,
    }
}

/// The query that a text suggests, which says that value in JSON or none.
pub open spec fn suggested_query(text: Seq<char>, value: Option<JsonView>) -> Option<Seq<char>> {
    let query = match value {
        Some(value) => query_in_value(value),
        None => first_line(lines_of(text)),
    };
    match query {
        Some(query) => if query_line(query).len() == 0 {
            None
        } else {
            Some(query_line(query))
        },
        None => None,
    }
}

/// The answer that suggests a query, or nothing.
pub open spec fn query_response(
    id: Seq<char>,
    query: Option<Seq<char>>,
) -> GenerateAMQuerySuggestionsResponseView {
    GenerateAMQuerySuggestionsResponseView {
        id,
        suggestion: match query {
            Some(query) => Some(
                AMSuggestionView::Simple(AMSimpleQueryView { query, should_plan_task: false }),
            ),
            None => None,
        },
    }
}

/// The answer under an identifier that a text gives, which says that value in JSON or none.
pub fn am_query_response(
    id: String,
    text: &str,
    value: &Option<Json>,
) -> (r: GenerateAMQuerySuggestionsResponse)
    ensures
        r@ == query_response(id@, suggested_query(text@, opt_view(*value))),
{
    let query = match value {
        Some(value) => match query_from_json_value(value) {
            Some(query) => Some(query.to_owned()),
            None => None,
        },
        None => find_first_line(text),
    };
    let query = match query {
        Some(query) => {
            let query = clean_query_line(query.as_str());
            if query.as_str().is_empty() {
                None
            } else {
                Some(query)
            }
        },
        None => None,
    };
    GenerateAMQuerySuggestionsResponse {
        id,
        suggestion: match query {
            Some(query) => Some(
                AMSuggestion::Simple(AMSimpleQuery { query, should_plan_task: false }),
            ),
            None => None,
        },
    }
}

/// The answer that the text of a backend gives.
pub fn parse_am_query_suggestion_text(text: &str) -> (r: GenerateAMQuerySuggestionsResponse)
    ensures
        fresh_id("byob-"@, r@.id),
        r@ == query_response(
            r@.id,
            suggested_query(
                without_fences(trimmed(text@)),
                json_in(without_fences(trimmed(text@))),
            ),
        ),
{
    let cleaned = strip_code_fences(trim(text));
    let value = find_json(cleaned);
    am_query_response(new_id("byob-"), cleaned, &value)
}

/// The answer that suggests nothing.
pub fn empty_am_query_suggestion_response() -> (r: GenerateAMQuerySuggestionsResponse)
    ensures
        fresh_id("byob-"@, r@.id),
        r@ == query_response(r@.id, None),
{
    GenerateAMQuerySuggestionsResponse { id: new_id("byob-"), suggestion: None }
}

/// The query that a text completes to, which says that value in JSON or none: nothing where it says
/// nothing, and else a text that starts with what the user has typed.
pub open spec fn completed_query(
    text: Seq<char>,
    value: Option<JsonView>,
    partial_query: Seq<char>,
) -> Seq<char> {
    let said = match value {
        Some(value) => text_or_empty(
            match (query_in_value(value), value.get_str("suggestion"@)) {
                (Some(query), _) => Some(query),
                (None, Some(suggestion)) => Some(suggestion),
                (None, None) => value.as_str(),
            },
        ),
        None => text,
    };
    let line = query_line(said);
    if line.len() == 0 {
        Seq::empty()
    } else if has_prefix(line, partial_query) {
        line
    } else {
        partial_query + line
    }
}

/// A completed query is empty or starts with what the user has typed.
pub proof fn lemma_completion_starts_with_query(
    text: Seq<char>,
    value: Option<JsonView>,
    partial_query: Seq<char>,
)
    ensures
        completed_query(text, value, partial_query).len() == 0 || has_prefix(
            completed_query(text, value, partial_query),
            partial_query,
        ),
{
    let completed = completed_query(text, value, partial_query);
    if completed.len() > 0 && completed.len() >= partial_query.len() {
        let rest = completed.skip(partial_query.len() as int);
        assert(completed == partial_query + rest ==> completed.take(partial_query.len() as int)
            =~= partial_query);
        assert forall|line: Seq<char>|
            #[trigger] (partial_query + line) == completed implies completed.take(
            partial_query.len() as int,
        ) == partial_query by {
            assert(completed.take(partial_query.len() as int) =~= partial_query);
        }
    }
}

/// The query that a text completes to, which says that value in JSON or none.
pub fn complete_query(text: &str, value: &Option<Json>, partial_query: &str) -> (r: String)
    ensures
        r@ == completed_query(text@, opt_view(*value), partial_query@),
{
    let said = match value {
        Some(value) => or_empty(
            match query_from_json_value(value) {
                Some(query) => Some(query),
                None => match value.get_str("suggestion") {
                    Some(suggestion) => Some(suggestion),
                    None => value.as_str(),
                },
            },
        ),
        None => text,
    };
    let line = clean_query_line(said);
    if line.as_str().is_empty() {
        let r = String::new();
        assert(r@ =~= Seq::<char>::empty());
        r
    } else if starts_with(line.as_str(), partial_query) {
        line
    } else {
        let mut query = partial_query.to_owned();
        query.append(line.as_str());
        query
    }
}

/// The query that the text of a backend completes to.
pub fn clean_query_suggestion(text: &str, partial_query: &str) -> (r: String)
    ensures
        r@ == completed_query(
            without_fences(trimmed(text@)),
            json_in(without_fences(trimmed(text@))),
            partial_query@,
        ),
{
    let cleaned = strip_code_fences(trim(text));
    let value = find_json(cleaned);
    complete_query(cleaned, &value, partial_query)
}

/// Whether a text is one line without quotes, marks or white space at its ends.
pub open spec fn bare(s: Seq<char>) -> bool {
    &&& s.len() > 0
    &&& !s.contains('\n')
    &&& !white(s[0]) && !white(s.last())
    &&& s[0] != '"' && s.last() != '"'
    &&& !has_prefix(s, "- "@)
}

proof fn lemma_bare_line(s: Seq<char>)
    requires
        bare(s),
    ensures
        trimmed(s) == s,
        trimmed_of(s, CharClass::Is('"')) == s,
        without_prefixes(s, "- "@) == s,
        lines_of(s) == seq![s],
        query_line(s) == s,
{
    lemma_nothing_to_trim(s);
    reveal_strlit("- ");
    lemma_prefixes_are_cut_off("- "@, s);
    assert forall|i: int| 0 <= i < s.len() implies #[trigger] s[i] != '\n' by {
        assert(s.contains(s[i]));
    }
    lemma_lines_follow(s, s);
}

/// A query is one line: quotes around it, the mark of a list before it and what stands below it are
/// no part of it.
pub proof fn lemma_query_is_one_line(query: Seq<char>, rest: Seq<char>)
    requires
        bare(query),
        rest.len() == 0 || (!white(rest.last()) && rest.last() != '"'),
    ensures
        query_line(query) == query,
        query_line("- "@ + query) == query,
        query_line(seq!['"'] + query + seq!['"']) == query,
        query_line(seq![' '] + query + seq!['\n']) == query,
        rest.len() > 0 ==> query_line(query + seq!['\n'] + rest) == query,
        query_line(Seq::empty()).len() == 0,
{
    lemma_bare_line(query);
    reveal_strlit("- ");
    let none = Seq::<char>::empty();
    let marked = "- "@ + query;
    assert(marked[0] == '-');
    lemma_nothing_to_trim(marked);
    lemma_prefixes_are_cut_off("- "@, query);
    let quoted = seq!['"'] + query + seq!['"'];
    assert(quoted[0] == '"' && quoted.last() == '"');
    lemma_nothing_to_trim(quoted);
    assert(quoted.skip(1) =~= query + seq!['"']);
    assert((query + seq!['"'])[0] == query[0]);
    assert((query + seq!['"']).drop_last() =~= query);
    assert(trim_start_of(quoted, CharClass::Is('"')) == query + seq!['"']) by {
        assert(trim_start_of(query + seq!['"'], CharClass::Is('"')) == query + seq!['"']);
    }
    assert(trim_end_of(query + seq!['"'], CharClass::Is('"')) == trim_end_of(
        query,
        CharClass::Is('"'),
    ));
    lemma_trimming(seq![' '], query, seq!['\n']);
    if rest.len() > 0 {
        let all = query + seq!['\n'] + rest;
        assert(all[0] == query[0]);
        assert(all.last() == rest.last());
        lemma_nothing_to_trim(all);
        assert(trimmed_of(all, CharClass::Is('"')) == all);
        assert(!has_prefix(all, "- "@)) by {
            if has_prefix(all, "- "@) {
                assert(all.take(2)[0] == '-' && all.take(2)[1] == ' ');
                if query.len() >= 2 {
                    assert(query.take(2) =~= "- "@);
                } else {
                    assert(all[1] == '\n');
                }
            }
        }
        assert forall|i: int| 0 <= i < query.len() implies #[trigger] query[i] != '\n' by {
            assert(query.contains(query[i]));
        }
        assert(query.last() != '\r');
        lemma_lines_follow(query, rest);
        assert((seq![query] + lines_of(rest))[0] == query);
    }
    lemma_trimmed_blank(none);
    assert(trimmed(none) =~= none);
    assert(trimmed_of(none, CharClass::Is('"')) =~= none);
    assert(without_prefixes(none, "- "@) =~= none);
}

/// A query is looked for as such, then as a simple one, then in the suggestion.
pub proof fn lemma_where_queries_stand(value: JsonView, query: Seq<char>)
    ensures
        value.get_str("query"@) == Some(query) ==> query_in_value(value) == Some(query),
        value.get_str("query"@) is None && value.get("simple"@) is Some
            && value.get("simple"@)->0.get_str("query"@) == Some(query) ==> query_in_value(value)
            == Some(query),
        value.get_str("query"@) is None && value.get("simple"@) is None && value.get("suggestion"@)
            is Some && value.get("suggestion"@)->0.get_str("query"@) == Some(query)
            ==> query_in_value(value) == Some(query),
        value.get_str("query"@) is None && value.get("simple"@) is None && value.get("suggestion"@)
            is Some && value.get("suggestion"@)->0.get_str("query"@) is None && value.get(
            "suggestion"@,
        )->0.get("simple"@) is Some && value.get("suggestion"@)->0.get("simple"@)->0.get_str(
            "query"@,
        ) == Some(query) ==> query_in_value(value) == Some(query),
        value.get("query"@) is None && value.get("simple"@) is None && value.get("suggestion"@)
            is None ==> query_in_value(value) is None,
{
}

/// What is suggested of an answer: the query in it, or its first line that is not blank.
pub proof fn lemma_suggested_queries(
    text: Seq<char>,
    value: JsonView,
    query: Seq<char>,
    id: Seq<char>,
)
    requires
        bare(query),
    ensures
        value.get_str("query"@) == Some(query) ==> suggested_query(
            text,
            Some(value),
        ) == Some(query),
        query_in_value(value) is None ==> suggested_query(text, Some(value)) is None,
        text == query ==> suggested_query(text, None) == Some(query),
        suggested_query(Seq::empty(), None) is None,
        query_response(id, Some(query)).id == id,
        query_response(id, Some(query)).suggestion == Some(
            AMSuggestionView::Simple(AMSimpleQueryView { query, should_plan_task: false }),
        ),
        query_response(id, None).id == id,
        query_response(id, None).suggestion is None,
{
    lemma_bare_line(query);
    lemma_blank_start(query);
}

proof fn lemma_blank_start(s: Seq<char>)
    requires
        s.len() > 0,
        !white(s[0]),
    ensures
        !blank(s),
{
    if blank(s) {
        assert(white(s[0]));
    }
}

/// A prediction goes on from what the user has typed: it is the line that was said where that
/// starts with the partial query, and else the partial query with the line behind it.
pub proof fn lemma_predictions_go_on(
    text: Seq<char>,
    value: JsonView,
    line: Seq<char>,
    partial: Seq<char>,
)
    requires
        bare(line),
    ensures
        has_prefix(line, partial) ==> completed_query(line, None, partial) == line,
        !has_prefix(line, partial) ==> completed_query(line, None, partial) == partial + line,
        value.get_str("query"@) == Some(line) ==> completed_query(text, Some(value), partial)
            == completed_query(line, None, partial),
        query_in_value(value) is None && value.get_str("suggestion"@) == Some(line)
            ==> completed_query(text, Some(value), partial) == completed_query(line, None, partial),
        completed_query(text, Some(JsonView::Str(line)), partial) == completed_query(
            line,
            None,
            partial,
        ),
        completed_query(Seq::empty(), None, partial).len() == 0,
{
    lemma_bare_line(line);
    lemma_query_is_one_line(line, Seq::empty());
}

} // verus!
