//! Suggesting the next command.
use crate::json::{
    escape, escaped, find_json, json_in, json_reading, lemma_how_texts_are_written, parse_json,
    Json, JsonView,
};
use crate::record::{is_record, record, text_at, text_field};
use crate::requests::{
    ContextMessagePayload, ContextMessagePayloadView, GenerateAIInputSuggestionsRequest,
    GenerateAIInputSuggestionsRequestView,
};
use crate::text::{
    ascii_alphanumeric, blank, chars_of, contains, contains_char, find, found, has_prefix,
    has_suffix, holds_text, is_ascii_alphanumeric, is_blank, lemma_found, lemma_nothing_to_trim,
    lemma_prefixes_are_cut_off, lemma_trimming, lines, lines_of, opt_view, res_view, same,
    split_whitespace, stands_at, starts_with, strip_prefix, strip_prefixes, strip_suffix, trim,
    trim_class, trim_start_class, trim_start_of, trimmed, trimmed_of, views, white,
    without_prefixes, words_of, CharClass,
};
use vstd::prelude::*;

verus! {

// ---------------------------------------------------------------------------------------------
// The answer
// ---------------------------------------------------------------------------------------------
/// A suggested query to the agent.
#[derive(Debug)]
pub struct AgentModeSuggestionV2 {
    pub query: String,
    pub context_block_ids: Vec<String>,
}

/// The model of [`AgentModeSuggestionV2`].
#[verifier::ext_equal]
pub struct AgentModeSuggestionV2View {
    pub query: Seq<char>,
    pub context_block_ids: Seq<Seq<char>>,
}

impl View for AgentModeSuggestionV2 {
    type V = AgentModeSuggestionV2View;

    open spec fn view(&self) -> AgentModeSuggestionV2View {
        AgentModeSuggestionV2View {
            query: self.query@,
            context_block_ids: views(self.context_block_ids@),
        }
    }
}

/// A suggested command.
#[derive(Debug)]
pub struct GenerateAIInputSuggestionsResponseV2 {
    pub commands: Vec<String>,
    pub ai_queries: Vec<AgentModeSuggestionV2>,
    pub most_likely_action: String,
}

/// The model of [`GenerateAIInputSuggestionsResponseV2`].
#[verifier::ext_equal]
pub struct GenerateAIInputSuggestionsResponseV2View {
    pub commands: Seq<Seq<char>>,
    pub ai_queries: Seq<AgentModeSuggestionV2View>,
    pub most_likely_action: Seq<char>,
}

impl View for GenerateAIInputSuggestionsResponseV2 {
    type V = GenerateAIInputSuggestionsResponseV2View;

    open spec fn view(&self) -> GenerateAIInputSuggestionsResponseV2View {
        GenerateAIInputSuggestionsResponseV2View {
            commands: views(self.commands@),
            ai_queries: views(self.ai_queries@),
            most_likely_action: self.most_likely_action@,
        }
    }
}

/// The answer that suggests a command.
pub open spec fn suggested(command: Seq<char>) -> GenerateAIInputSuggestionsResponseV2View {
    GenerateAIInputSuggestionsResponseV2View {
        commands: seq![command],
        ai_queries: Seq::empty(),
        most_likely_action: command,
    }
}

/// The answer that suggests nothing.
pub open spec fn nothing_suggested() -> GenerateAIInputSuggestionsResponseV2View {
    GenerateAIInputSuggestionsResponseV2View {
        commands: Seq::empty(),
        ai_queries: Seq::empty(),
        most_likely_action: Seq::empty(),
    }
}

/// The answer that suggests a command.
pub fn suggestion_response(command: String) -> (r: GenerateAIInputSuggestionsResponseV2)
    ensures
        r@ == suggested(command@),
{
    let r = GenerateAIInputSuggestionsResponseV2 {
        commands: vec![command.clone()],
        ai_queries: Vec::new(),
        most_likely_action: command,
    };
    assert(r@ =~= suggested(command@));
    r
}

/// The answer that suggests nothing.
pub fn empty_input_suggestion_response() -> (r: GenerateAIInputSuggestionsResponseV2)
    ensures
        r@ == nothing_suggested(),
{
    let r = GenerateAIInputSuggestionsResponseV2 {
        commands: Vec::new(),
        ai_queries: Vec::new(),
        most_likely_action: String::new(),
    };
    assert(r@ =~= nothing_suggested());
    r
}

/// Whether one of the rejected suggestions is the command, but for the white space around it.
pub open spec fn rejected(suggestions: Seq<Seq<char>>, command: Seq<char>) -> bool {
    exists|i: int| 0 <= i < suggestions.len() && trimmed(#[trigger] suggestions[i]) == command
}

/// Whether a command may be suggested: it is one line and not blank, the user has not rejected it,
/// and it starts with what the user has typed.
pub open spec fn allowed(
    request: GenerateAIInputSuggestionsRequestView,
    command: Seq<char>,
) -> bool {
    &&& !blank(command)
    &&& !command.contains('\n')
    &&& !rejected(request.rejected_suggestions, command)
    &&& request.prefix matches Some(prefix) ==> has_prefix(command, prefix)
}

/// Whether a command may be suggested.
pub fn command_is_allowed_for_request(
    request: &GenerateAIInputSuggestionsRequest,
    command: &str,
) -> (r: bool)
    ensures
        r == allowed(request@, command@),
{
    if is_blank(command) || contains_char(command, '\n') {
        return false;
    }
    let suggestions = &request.rejected_suggestions;
    let mut i: usize = 0;
    while i < suggestions.len()
        invariant
            i <= suggestions.len(),
            suggestions == request.rejected_suggestions,
            forall|k: int| 0 <= k < i ==> trimmed(#[trigger] views(suggestions@)[k]) != command@,
        decreases suggestions.len() - i,
    {
        if same(trim(suggestions[i].as_str()), command) {
            assert(trimmed(views(suggestions@)[i as int]) == command@);
            return false;
        }
        i += 1;
    }
    assert(!rejected(request@.rejected_suggestions, command@));
    match &request.prefix {
        Some(prefix) => starts_with(command, prefix.as_str()),
        None => true,
    }
}

// ---------------------------------------------------------------------------------------------
// Suggestions without a backend
// ---------------------------------------------------------------------------------------------
/// A command and what it printed.
#[derive(Debug)]
pub struct SuggestionContextMessage {
    pub input: String,
    pub output: String,
}

/// The model of [`SuggestionContextMessage`].
#[verifier::ext_equal]
pub struct SuggestionContextMessageView {
    pub input: Seq<char>,
    pub output: Seq<char>,
}

impl View for SuggestionContextMessage {
    type V = SuggestionContextMessageView;

    open spec fn view(&self) -> SuggestionContextMessageView {
        SuggestionContextMessageView {
            input: self.input@,
            output: self.output@,
        }
    }
}

/// What a JSON value says as [`SuggestionContextMessage`].
pub open spec fn suggestion_context_message(
    json: JsonView
) -> Option<SuggestionContextMessageView> {
    if !record(json, 2) {
        None
    } else {
        match (
            text_field(json, 0, "input"@),
            text_field(json, 1, "output"@),
        ) {
            (Some(input), Some(output)) => Some(
                SuggestionContextMessageView { input, output },
            ),
            _ => None,
        }
    }
}

impl SuggestionContextMessage {
    /// Decodes the record.
    pub fn from_json(json: &Json) -> (r: Option<Self>)
        ensures
            opt_view(r) == suggestion_context_message(json@),
    {
        if !is_record(json, 2) {
            return None;
        }
        let input = match text_at(json, 0, "input") {
            Some(v) => v,
            None => {
                return None;
            },
        };
        let output = match text_at(json, 1, "output") {
            Some(v) => v,
            None => {
                return None;
            },
        };
        Some(SuggestionContextMessage { input, output })
    }
}

/// What an escaped character stands for.
pub open spec fn unescaped(c: char) -> char {
    if c == 'n' {
        '\n'
    } else if c == 'r' {
        '\r'
    } else if c == 't' {
        '\t'
    } else {
        c
    }
}

/// The value of a string that ends at the first quote without a backslash before it.
pub open spec fn until_quote(s: Seq<char>) -> Option<Seq<char>>
    decreases s.len(),
{
    if s.len() == 0 {
        None
    } else if s[0] == '"' {
        Some(Seq::empty())
    } else if s[0] == '\\' {
        if s.len() < 2 {
            None
        } else {
            match until_quote(s.skip(2)) {
                Some(rest) => Some(seq![unescaped(s[1])] + rest),
                None => None,
            }
        }
    } else {
        match until_quote(s.skip(1)) {
            Some(rest) => Some(seq![s[0]] + rest),
            None => None,
        }
    }
}

/// The value of a string field, found in a text that need not be JSON as a whole.
pub open spec fn string_field_in(message: Seq<char>, field: Seq<char>) -> Option<Seq<char>> {
    let marker = "\""@ + field + "\":\""@;
    match found(message, marker) {
        Some(i) => until_quote(message.skip(i + marker.len())),
        None => None,
    }
}

/// The value of a string field, found in a text that need not be JSON as a whole.
pub fn extract_json_string_field(message: &str, field: &str) -> (r: Option<String>)
    ensures
        opt_view(r) == string_field_in(message@, field@),
{
    let mut marker = "\"".to_owned();
    marker.append(field);
    marker.append("\":\"");
    let chars = chars_of(message);
    let start = match find(message, marker.as_str()) {
        Some(i) => {
            assert(i + marker@.len() <= chars.len());
            i + marker.as_str().unicode_len()
        },
        None => {
            return None;
        },
    };
    let ghost rest = message@.skip(start as int);
    let mut value = String::new();
    let mut i: usize = start;
    assert(chars@.skip(i as int) == rest);
    assert(continued(value@, until_quote(rest)) == until_quote(rest)) by {
        match until_quote(rest) {
            Some(all) => {
                assert(value@ + all =~= all);
            },
            None => {},
        }
    }
    while i < chars.len()
        invariant
            start <= i <= chars.len(),
            chars@ == message@,
            continued(value@, until_quote(chars@.skip(i as int))) == until_quote(rest),
            until_quote(rest) == string_field_in(message@, field@),
        decreases chars.len() - i,
    {
        let ghost left = chars@.skip(i as int);
        let ghost before = value@;
        let c = chars[i];
        if c == '"' {
            assert(value@ + Seq::<char>::empty() =~= value@);
            return Some(value);
        } else if c == '\\' {
            if chars.len() - i < 2 {
                return None;
            }
            assert(left.skip(2) =~= chars@.skip(i + 2));
            let c = unescape(chars[i + 1]);
            value.push(c);
            i += 2;
            proof {
                match until_quote(left.skip(2)) {
                    Some(all) => {
                        assert(value@ + all =~= before + (seq![c] + all));
                    },
                    None => {},
                }
            }
        } else {
            assert(left.skip(1) =~= chars@.skip(i + 1));
            value.push(c);
            i += 1;
            proof {
                match until_quote(left.skip(1)) {
                    Some(all) => {
                        assert(value@ + all =~= before + (seq![c] + all));
                    },
                    None => {},
                }
            }
        }
    }
    None
}

/// A text continued by another, where there is one.
spec fn continued(start: Seq<char>, rest: Option<Seq<char>>) -> Option<Seq<char>> {
    match rest {
        Some(rest) => Some(start + rest),
        None => None,
    }
}

/// What an escaped character stands for.
fn unescape(c: char) -> (r: char)
    ensures
        r == unescaped(c),
{
    if c == 'n' {
        '\n'
    } else if c == 'r' {
        '\r'
    } else if c == 't' {
        '\t'
    } else {
        c
    }
}

/// A command and what it printed, found in a text that need not be JSON as a whole.
pub open spec fn forgiving_message(message: Seq<char>) -> Option<SuggestionContextMessageView> {
    match (string_field_in(message, "input"@), string_field_in(message, "output"@)) {
        (Some(input), Some(output)) => Some(SuggestionContextMessageView { input, output }),
        _ => None,
    }
}

/// A command and what it printed, found in a text that need not be JSON as a whole.
pub fn forgiving_context_message_parse(message: &str) -> (r: Option<SuggestionContextMessage>)
    ensures
        opt_view(r) == forgiving_message(message@),
{
    match (
        extract_json_string_field(message, "input"),
        extract_json_string_field(message, "output"),
    ) {
        (Some(input), Some(output)) => Some(SuggestionContextMessage { input, output }),
        _ => None,
    }
}

/// A command and what it printed, from a text and from what the text is as JSON.
pub open spec fn message_in_text(
    message: Seq<char>,
    parsed: Result<JsonView, Seq<char>>,
) -> Option<SuggestionContextMessageView> {
    let strict = match parsed {
        Ok(json) => suggestion_context_message(json),
        Err(_) => None,
    };
    match strict {
        Some(found) => Some(found),
        None => forgiving_message(message),
    }
}

/// A command and what it printed, from a text and from what the text is as JSON.
pub fn context_message_from_text(message: &str, parsed: &Result<Json, String>) -> (r: Option<
    SuggestionContextMessage,
>)
    ensures
        opt_view(r) == message_in_text(message@, res_view(*parsed)),
{
    let strict = match parsed {
        Ok(json) => SuggestionContextMessage::from_json(json),
        Err(_) => None,
    };
    match strict {
        Some(found) => Some(found),
        None => forgiving_context_message_parse(message),
    }
}

/// A command and what it printed, from a message of the context.
pub open spec fn message_in_payload(message: ContextMessagePayloadView) -> Option<
    SuggestionContextMessageView,
> {
    match message {
        ContextMessagePayloadView::Object(value) => suggestion_context_message(value),
        ContextMessagePayloadView::Text(text) => message_in_text(text, json_reading(text)),
    }
}

/// A command and what it printed, from a message of the context.
pub fn context_message_from_payload(message: &ContextMessagePayload) -> (r: Option<
    SuggestionContextMessage,
>)
    ensures
        opt_view(r) == message_in_payload(message@),
{
    match message {
        ContextMessagePayload::Object(value) => SuggestionContextMessage::from_json(value),
        ContextMessagePayload::Text(text) => {
            let parsed = parse_json(text.as_str());
            context_message_from_text(text.as_str(), &parsed)
        },
    }
}

/// The last command of the context and what it printed.
pub open spec fn latest_message(messages: Seq<ContextMessagePayloadView>) -> Option<
    SuggestionContextMessageView,
>
    decreases messages.len(),
{
    if messages.len() == 0 {
        None
    } else {
        match message_in_payload(messages.last()) {
            Some(message) => Some(message),
            None => latest_message(messages.drop_last()),
        }
    }
}

/// The last command of the context and what it printed.
pub fn latest_context_message(request: &GenerateAIInputSuggestionsRequest) -> (r: Option<
    SuggestionContextMessage,
>)
    ensures
        opt_view(r) == latest_message(request@.context_messages),
{
    let messages = &request.context_messages;
    let ghost all = views(messages@);
    let mut i: usize = messages.len();
    assert(all.take(i as int) == all);
    while i > 0
        invariant
            i <= messages.len(),
            messages == request.context_messages,
            all == views(messages@),
            latest_message(all.take(i as int)) == latest_message(all),
        decreases i,
    {
        assert(all.take(i as int).drop_last() == all.take(i - 1));
        i -= 1;
        match context_message_from_payload(&messages[i]) {
            Some(message) => {
                return Some(message);
            },
            None => {},
        }
    }
    None
}

/// The characters of the name of a package.
pub open spec fn package_char(c: char) -> bool {
    ascii_alphanumeric(c) || c == '-' || c == '_' || c == '.' || c == '+' || c == '@'
}

/// Whether a text can be the name of a package.
pub open spec fn package_name(name: Seq<char>) -> bool {
    name.len() > 0 && forall|i: int| 0 <= i < name.len() ==> package_char(#[trigger] name[i])
}

/// The first of some words that does not start with a hyphen.
pub open spec fn first_operand(words: Seq<Seq<char>>) -> Option<Seq<char>>
    decreases words.len(),
{
    if words.len() == 0 {
        None
    } else if has_prefix(words[0], "-"@) {
        first_operand(words.skip(1))
    } else {
        Some(words[0])
    }
}

/// What a command asks Homebrew to search for.
pub open spec fn brew_query(input: Seq<char>) -> Option<Seq<char>> {
    let words = words_of(trimmed(input));
    if words.len() >= 2 && words[0] == "brew"@ && words[1] == "search"@ {
        match first_operand(words.skip(2)) {
            Some(query) => if package_name(query) {
                Some(query)
            } else {
                None
            },
            None => None,
        }
    } else {
        None
    }
}

/// Whether what Homebrew printed lists the package: it names no failure, and one of its words is
/// the name, but for punctuation around it.
pub open spec fn brew_lists(output: Seq<char>, query: Seq<char>) -> bool {
    let output = trimmed(output);
    &&& output.len() > 0
    &&& !holds_text(output, "No formula"@)
    &&& !holds_text(output, "No cask"@)
    &&& !holds_text(output, "Error:"@)
    &&& exists|i: int|
        0 <= i < words_of(output).len() && trimmed_of(
            #[trigger] words_of(output)[i],
            CharClass::NotAlphanumeric,
        ) == query
}

/// The installation of a package that was searched for and found.
pub open spec fn brew_suggestion(message: SuggestionContextMessageView) -> Option<Seq<char>> {
    match brew_query(message.input) {
        Some(query) => if brew_lists(message.output, query) {
            Some("brew install "@ + query)
        } else {
            None
        },
        None => None,
    }
}

/// Whether a text can be the name of a package.
fn is_package_name(name: &str) -> (r: bool)
    ensures
        r == package_name(name@),
{
    let chars = chars_of(name);
    let mut i: usize = 0;
    while i < chars.len()
        invariant
            i <= chars.len(),
            chars@ == name@,
            forall|k: int| 0 <= k < i ==> package_char(#[trigger] name@[k]),
        decreases chars.len() - i,
    {
        let c = chars[i];
        if !(is_ascii_alphanumeric(c) || c == '-' || c == '_' || c == '.' || c == '+' || c == '@') {
            assert(!package_char(name@[i as int]));
            return false;
        }
        i += 1;
    }
    chars.len() > 0
}

/// What a command asks Homebrew to search for.
fn find_brew_query(input: &str) -> (r: Option<String>)
    ensures
        opt_view(r) == brew_query(input@),
{
    let words = split_whitespace(trim(input));
    if words.len() < 2 || !same(words[0].as_str(), "brew") || !same(words[1].as_str(), "search") {
        return None;
    }
    let ghost all = views(words@);
    let mut i: usize = 2;
    while i < words.len()
        invariant
            2 <= i <= words.len(),
            all == views(words@),
            all == words_of(trimmed(input@)),
            all[0] == "brew"@,
            all[1] == "search"@,
            first_operand(all.skip(2)) == first_operand(all.skip(i as int)),
        decreases words.len() - i,
    {
        assert(all.skip(i as int).skip(1) =~= all.skip(i + 1));
        if !starts_with(words[i].as_str(), "-") {
            if is_package_name(words[i].as_str()) {
                return Some(words[i].clone());
            }
            return None;
        }
        i += 1;
    }
    None
}

/// Whether what Homebrew printed lists the package.
fn brew_output_lists(output: &str, query: &str) -> (r: bool)
    ensures
        r == brew_lists(output@, query@),
{
    let shown = trim(output);
    if shown.is_empty() || contains(shown, "No formula") || contains(shown, "No cask")
        || contains(shown, "Error:") {
        return false;
    }
    let words = split_whitespace(shown);
    let mut i: usize = 0;
    while i < words.len()
        invariant
            i <= words.len(),
            shown@ == trimmed(output@),
            shown@.len() > 0,
            !holds_text(shown@, "No formula"@),
            !holds_text(shown@, "No cask"@),
            !holds_text(shown@, "Error:"@),
            views(words@) == words_of(shown@),
            forall|k: int|
                0 <= k < i ==> trimmed_of(
                    #[trigger] words_of(shown@)[k],
                    CharClass::NotAlphanumeric,
                ) != query@,
        decreases words.len() - i,
    {
        assert(words_of(shown@)[i as int] == words@[i as int]@);
        if same(trim_class(words[i].as_str(), CharClass::NotAlphanumeric), query) {
            return true;
        }
        i += 1;
    }
    false
}

/// The installation of a package that was searched for and found.
pub open spec fn brew_suggestion_for(request: GenerateAIInputSuggestionsRequestView) -> Option<
    Seq<char>,
> {
    match latest_message(request.context_messages) {
        Some(message) => brew_suggestion(message),
        None => None,
    }
}

/// The installation of a package that the last command searched for and found.
pub fn brew_search_install_suggestion(request: &GenerateAIInputSuggestionsRequest) -> (r: Option<
    String,
>)
    ensures
        opt_view(r) == brew_suggestion_for(request@),
{
    match latest_context_message(request) {
        Some(message) => suggest_installation(&message),
        None => None,
    }
}

/// The installation of a package that a command searched for and found.
pub fn suggest_installation(message: &SuggestionContextMessage) -> (r: Option<String>)
    ensures
        opt_view(r) == brew_suggestion(message@),
{
    match find_brew_query(message.input.as_str()) {
        Some(query) => if brew_output_lists(message.output.as_str(), query.as_str()) {
            let mut command = "brew install ".to_owned();
            command.append(query.as_str());
            Some(command)
        } else {
            None
        },
        None => None,
    }
}

/// The answer that needs no backend, where there is one.
pub open spec fn local_suggestion(request: GenerateAIInputSuggestionsRequestView) -> Option<
    GenerateAIInputSuggestionsResponseV2View,
> {
    match brew_suggestion_for(request) {
        Some(command) => if allowed(request, command) {
            Some(suggested(command))
        } else {
            None
        },
        None => None,
    }
}

/// The answer that needs no backend, where there is one.
pub fn local_next_command_suggestion(request: &GenerateAIInputSuggestionsRequest) -> (r: Option<
    GenerateAIInputSuggestionsResponseV2,
>)
    ensures
        opt_view(r) == local_suggestion(request@),
{
    match brew_search_install_suggestion(request) {
        Some(command) => if command_is_allowed_for_request(request, command.as_str()) {
            Some(suggestion_response(command))
        } else {
            None
        },
        None => None,
    }
}

// ---------------------------------------------------------------------------------------------
// Suggestions of a backend
// ---------------------------------------------------------------------------------------------
/// A text without the fence of a code block around it.
pub open spec fn without_fences(text: Seq<char>) -> Seq<char> {
    let text = trimmed(text);
    if has_prefix(text, "```"@) {
        let inner = text.skip("```"@.len() as int);
        let inner = if has_prefix(inner, "json"@) {
            inner.skip("json"@.len() as int)
        } else if has_prefix(inner, "JSON"@) {
            inner.skip("JSON"@.len() as int)
        } else {
            inner
        };
        let inner = trim_start_of(inner, CharClass::LineBreak);
        if has_suffix(inner, "```"@) {
            trimmed(inner.take(inner.len() - "```"@.len()))
        } else {
            trimmed(inner)
        }
    } else {
        text
    }
}

/// A text without the fence of a code block around it.
pub fn strip_code_fences<'a>(text: &'a str) -> (r: &'a str)
    ensures
        r@ == without_fences(text@),
{
    let text = trim(text);
    let inner = match strip_prefix(text, "```") {
        Some(inner) => inner,
        None => {
            return text;
        },
    };
    let inner = match strip_prefix(inner, "json") {
        Some(rest) => rest,
        None => match strip_prefix(inner, "JSON") {
            Some(rest) => rest,
            None => inner,
        },
    };
    let inner = trim_start_class(inner, CharClass::LineBreak);
    match strip_suffix(inner, "```") {
        Some(rest) => trim(rest),
        None => trim(inner),
    }
}

/// A command without the prompt of a shell before it.
pub open spec fn cleaned_command(command: Seq<char>) -> Seq<char> {
    trimmed(without_prefixes(without_prefixes(trimmed(command), "$ "@), "% "@))
}

/// A command without the prompt of a shell before it.
pub fn clean_command_candidate(command: &str) -> (r: String)
    ensures
        r@ == cleaned_command(command@),
{
    proof {
        reveal_strlit("$ ");
        reveal_strlit("% ");
    }
    trim(strip_prefixes(strip_prefixes(trim(command), "$ "), "% ")).to_owned()
}

/// The strings among some values that are not blank.
pub open spec fn nonblank_strings(values: Seq<JsonView>) -> Seq<Seq<char>>
    decreases values.len(),
{
    if values.len() == 0 {
        Seq::empty()
    } else {
        let before = nonblank_strings(values.drop_last());
        match values.last().as_str() {
            Some(text) => if blank(text) {
                before
            } else {
                before.push(text)
            },
            None => before,
        }
    }
}

/// The strings among some values that are not blank.
fn collect_nonblank_strings(values: &Vec<Json>) -> (r: Vec<String>)
    ensures
        views(r@) == nonblank_strings(views(values@)),
{
    let ghost all = views(values@);
    let mut r: Vec<String> = Vec::new();
    let mut i: usize = 0;
    while i < values.len()
        invariant
            i <= values.len(),
            all == views(values@),
            views(r@) == nonblank_strings(all.take(i as int)),
        decreases values.len() - i,
    {
        assert(all.take(i + 1).drop_last() == all.take(i as int));
        let ghost before = views(r@);
        match values[i].as_str() {
            Some(text) => {
                if !is_blank(text) {
                    r.push(text.to_owned());
                    assert(views(r@) =~= before.push(text@));
                }
            },
            None => {},
        }
        i += 1;
    }
    assert(all.take(all.len() as int) == all);
    r
}

/// The commands that a value offers: its most likely action, or else its list of commands, or else
/// the list or the text that it is.
pub open spec fn value_candidates(value: JsonView) -> Seq<Seq<char>> {
    match value.get_str("most_likely_action"@) {
        Some(command) => if blank(command) {
            listed_candidates(value)
        } else {
            seq![command]
        },
        None => listed_candidates(value),
    }
}

/// The commands that a value lists, or the text that it is.
pub open spec fn listed_candidates(value: JsonView) -> Seq<Seq<char>> {
    match (value.get_array("commands"@), value.as_array(), value.as_str()) {
        (Some(commands), _, _) => nonblank_strings(commands),
        (None, Some(commands), _) => nonblank_strings(commands),
        (None, None, Some(command)) => seq![command],
        (None, None, None) => Seq::empty(),
    }
}

/// The commands that a value offers.
pub fn suggestion_candidates_from_value(value: &Json) -> (r: Vec<String>)
    ensures
        views(r@) == value_candidates(value@),
{
    match value.get_str("most_likely_action") {
        Some(command) => {
            if !is_blank(command) {
                let r = vec![command.to_owned()];
                assert(views(r@) =~= seq![command@]);
                return r;
            }
        },
        None => {},
    }
    match value.get_array("commands") {
        Some(commands) => {
            return collect_nonblank_strings(commands);
        },
        None => {},
    }
    match value.as_array() {
        Some(commands) => {
            return collect_nonblank_strings(commands);
        },
        None => {},
    }
    match value.as_str() {
        Some(command) => {
            let r = vec![command.to_owned()];
            assert(views(r@) =~= seq![command@]);
            r
        },
        None => {
            let r: Vec<String> = Vec::new();
            assert(views(r@) =~= Seq::<Seq<char>>::empty());
            r
        },
    }
}

/// The lines that are not blank, without the white space around them.
pub open spec fn nonblank_lines(lines: Seq<Seq<char>>) -> Seq<Seq<char>>
    decreases lines.len(),
{
    if lines.len() == 0 {
        Seq::empty()
    } else {
        let before = nonblank_lines(lines.drop_last());
        if blank(lines.last()) {
            before
        } else {
            before.push(trimmed(lines.last()))
        }
    }
}

/// The lines that are not blank, without the white space around them.
fn collect_nonblank_lines(text: &str) -> (r: Vec<String>)
    ensures
        views(r@) == nonblank_lines(lines_of(text@)),
{
    let lines = lines(text);
    let ghost all = views(lines@);
    let mut r: Vec<String> = Vec::new();
    let mut i: usize = 0;
    while i < lines.len()
        invariant
            i <= lines.len(),
            all == views(lines@),
            views(r@) == nonblank_lines(all.take(i as int)),
        decreases lines.len() - i,
    {
        assert(all.take(i + 1).drop_last() == all.take(i as int));
        let ghost before = views(r@);
        let line = lines[i].as_str();
        if !is_blank(line) {
            let line = trim(line).to_owned();
            r.push(line);
            assert(views(r@) =~= before.push(line@));
        }
        i += 1;
    }
    assert(all.take(all.len() as int) == all);
    r
}

/// The commands that a text offers, which says that value in JSON or none.
pub open spec fn text_candidates(text: Seq<char>, value: Option<JsonView>) -> Seq<Seq<char>> {
    if text.len() == 0 {
        Seq::empty()
    } else {
        match value {
            Some(value) => value_candidates(value),
            None => nonblank_lines(lines_of(text)),
        }
    }
}

/// The commands that a text offers, which says that value in JSON or none.
pub fn candidates_from_text(text: &str, value: &Option<Json>) -> (r: Vec<String>)
    ensures
        views(r@) == text_candidates(text@, opt_view(*value)),
{
    if text.is_empty() {
        let r: Vec<String> = Vec::new();
        assert(views(r@) =~= Seq::<Seq<char>>::empty());
        return r;
    }
    match value {
        Some(value) => suggestion_candidates_from_value(value),
        None => collect_nonblank_lines(text),
    }
}

/// The commands that a text offers.
pub fn parse_suggestion_candidates(text: &str) -> (r: Vec<String>)
    ensures
        views(r@) == text_candidates(text@, json_in(text@)),
{
    let value = find_json(text);
    candidates_from_text(text, &value)
}

/// The first of some candidates that may be suggested, cleaned.
pub open spec fn first_allowed(
    request: GenerateAIInputSuggestionsRequestView,
    candidates: Seq<Seq<char>>,
) -> Option<Seq<char>>
    decreases candidates.len(),
{
    if candidates.len() == 0 {
        None
    } else if allowed(request, cleaned_command(candidates[0])) {
        Some(cleaned_command(candidates[0]))
    } else {
        first_allowed(request, candidates.skip(1))
    }
}

/// The answer that some candidates give.
pub open spec fn answer_of(
    request: GenerateAIInputSuggestionsRequestView,
    candidates: Seq<Seq<char>>,
) -> GenerateAIInputSuggestionsResponseV2View {
    match first_allowed(request, candidates) {
        Some(command) => suggested(command),
        None => nothing_suggested(),
    }
}

/// The answer that some candidates give.
pub fn answer_from_candidates(
    request: &GenerateAIInputSuggestionsRequest,
    candidates: &Vec<String>,
) -> (r: GenerateAIInputSuggestionsResponseV2)
    ensures
        r@ == answer_of(request@, views(candidates@)),
{
    let ghost all = views(candidates@);
    let mut i: usize = 0;
    assert(all.skip(0) == all);
    while i < candidates.len()
        invariant
            i <= candidates.len(),
            all == views(candidates@),
            first_allowed(request@, all.skip(i as int)) == first_allowed(request@, all),
        decreases candidates.len() - i,
    {
        assert(all.skip(i as int).skip(1) =~= all.skip(i + 1));
        let command = clean_command_candidate(candidates[i].as_str());
        if command_is_allowed_for_request(request, command.as_str()) {
            return suggestion_response(command);
        }
        i += 1;
    }
    empty_input_suggestion_response()
}

/// The answer that the text of a backend gives.
pub fn parse_input_suggestion_text(
    request: &GenerateAIInputSuggestionsRequest,
    text: &str,
) -> (r: GenerateAIInputSuggestionsResponseV2)
    ensures
        r@ == answer_of(
            request@,
            text_candidates(
                without_fences(trimmed(text@)),
                json_in(without_fences(trimmed(text@))),
            ),
        ),
{
    let cleaned = strip_code_fences(trim(text));
    let candidates = parse_suggestion_candidates(cleaned);
    answer_from_candidates(request, &candidates)
}

/// Whether an answer suggests nothing but a command that is allowed.
pub open spec fn keeps_to(
    request: GenerateAIInputSuggestionsRequestView,
    response: GenerateAIInputSuggestionsResponseV2View,
) -> bool {
    response == nothing_suggested() || (response == suggested(response.most_likely_action)
        && allowed(request, response.most_likely_action))
}

/// Whatever a backend says, what is suggested is allowed: one line, not rejected, and starting with
/// what the user has typed.
pub proof fn lemma_only_allowed_commands_are_suggested(
    request: GenerateAIInputSuggestionsRequestView,
    candidates: Seq<Seq<char>>,
)
    ensures
        keeps_to(request, answer_of(request, candidates)),
    decreases candidates.len(),
{
    if candidates.len() > 0 && !allowed(request, cleaned_command(candidates[0])) {
        lemma_only_allowed_commands_are_suggested(request, candidates.skip(1));
    }
}

/// What is suggested without a backend is allowed.
pub proof fn lemma_local_suggestion_is_allowed(request: GenerateAIInputSuggestionsRequestView)
    ensures
        local_suggestion(request) matches Some(response) ==> keeps_to(request, response),
{
}

// ---------------------------------------------------------------------------------------------
// What is suggested
// ---------------------------------------------------------------------------------------------
/// A command that is suggested is one line of text, starts with what the user has typed, and is
/// none that they have rejected; it is the only one, and the most likely one.
pub proof fn lemma_what_is_suggested(
    request: GenerateAIInputSuggestionsRequestView,
    candidates: Seq<Seq<char>>,
    i: int,
)
    ensures
        ({
            let answer = answer_of(request, candidates);
            let command = answer.most_likely_action;
            &&& answer.ai_queries.len() == 0
            &&& answer.commands.len() == 0 ==> command.len() == 0
            &&& answer.commands.len() > 0 ==> {
                &&& answer.commands == seq![command]
                &&& !blank(command)
                &&& !command.contains('\n')
                &&& request.prefix matches Some(prefix) ==> has_prefix(command, prefix)
                &&& 0 <= i < request.rejected_suggestions.len() ==> trimmed(
                    request.rejected_suggestions[i],
                ) != command
            }
        }),
    decreases candidates.len(),
{
    if candidates.len() > 0 && !allowed(request, cleaned_command(candidates[0])) {
        lemma_what_is_suggested(request, candidates.skip(1), i);
    }
}

/// The first candidate that is no blank, holds no line feed, starts with what the user has typed
/// and was not rejected is the one that is suggested; the others are passed over.
pub proof fn lemma_first_fitting_candidate(
    request: GenerateAIInputSuggestionsRequestView,
    candidate: Seq<char>,
    rest: Seq<Seq<char>>,
)
    ensures
        ({
            let command = cleaned_command(candidate);
            let fits = {
                &&& !blank(command)
                &&& !command.contains('\n')
                &&& (request.prefix is Some ==> has_prefix(command, request.prefix->0))
                &&& (forall|i: int|
                    0 <= i < request.rejected_suggestions.len() ==> trimmed(
                        #[trigger] request.rejected_suggestions[i],
                    ) != command)
            };
            &&& fits ==> answer_of(request, seq![candidate] + rest).most_likely_action == command
            &&& fits ==> answer_of(request, seq![candidate] + rest).commands == seq![command]
            &&& !fits ==> answer_of(request, seq![candidate] + rest) == answer_of(request, rest)
        }),
        answer_of(request, Seq::empty()).commands.len() == 0,
{
    let all = seq![candidate] + rest;
    assert(all[0] == candidate);
    assert(all.skip(1) =~= rest);
}

/// The sign of a prompt before a command is no part of it.
pub proof fn lemma_prompt_signs_are_cut_off(command: Seq<char>)
    requires
        command.len() > 0,
        !white(command[0]),
        !white(command.last()),
        !has_prefix(command, "$ "@),
        !has_prefix(command, "% "@),
    ensures
        cleaned_command(command) == command,
        cleaned_command("$ "@ + command) == command,
        cleaned_command("% "@ + command) == command,
        cleaned_command("$ "@ + ("% "@ + command)) == command,
{
    reveal_strlit("$ ");
    reveal_strlit("% ");
    lemma_nothing_to_trim(command);
    lemma_prefixes_are_cut_off("$ "@, command);
    lemma_prefixes_are_cut_off("% "@, command);
    let dollar = "$ "@ + command;
    assert(dollar[0] == '$');
    lemma_nothing_to_trim(dollar);
    let percent = "% "@ + command;
    assert(percent[0] == '%');
    lemma_nothing_to_trim(percent);
    assert(!has_prefix(percent, "$ "@)) by {
        assert(percent.take(2)[0] == '%');
    }
    lemma_prefixes_are_cut_off("$ "@, percent);
    let both = "$ "@ + percent;
    assert(both[0] == '$');
    lemma_nothing_to_trim(both);
}

/// A text in fences is what stands between them; a text without fences is what it is.
pub proof fn lemma_fences_are_taken_off(text: Seq<char>)
    requires
        text.len() > 0,
        !white(text[0]),
        !white(text.last()),
    ensures
        without_fences("```json\n"@ + text + "\n```"@) == text,
        without_fences("```JSON\n"@ + text + "\n```"@) == text,
        without_fences("```\n"@ + text + "\n```"@) == text,
        !has_prefix(text, "```"@) ==> without_fences(text) == text,
{
    reveal_strlit("```json\n");
    reveal_strlit("```JSON\n");
    reveal_strlit("```\n");
    reveal_strlit("\n```");
    reveal_strlit("```");
    reveal_strlit("json");
    reveal_strlit("JSON");
    lemma_nothing_to_trim(text);
    let end = text + "\n```"@;
    lemma_fenced_inside(text);
    let all = "```json\n"@ + text + "\n```"@;
    lemma_nothing_to_trim(all);
    assert(all.take(3) =~= "```"@);
    let inner = all.skip(3);
    assert(inner.take(4) =~= "json"@);
    assert(inner.skip(4) =~= seq!['\n'] + end);
    let all = "```JSON\n"@ + text + "\n```"@;
    lemma_nothing_to_trim(all);
    assert(all.take(3) =~= "```"@);
    let inner = all.skip(3);
    assert(inner.take(4) =~= "JSON"@);
    assert(inner.take(4)[0] != "json"@[0]);
    assert(inner.skip(4) =~= seq!['\n'] + end);
    let all = "```\n"@ + text + "\n```"@;
    lemma_nothing_to_trim(all);
    assert(all.take(3) =~= "```"@);
    let inner = all.skip(3);
    assert(inner =~= seq!['\n'] + end);
    assert(inner.take(4)[0] == '\n');
    assert(inner.take(4)[0] != "json"@[0]);
    assert(inner.take(4)[0] != "JSON"@[0]);
}

proof fn lemma_fenced_inside(text: Seq<char>)
    requires
        text.len() > 0,
        !white(text[0]),
        !white(text.last()),
    ensures
        ({
            let inner = trim_start_of(seq!['\n'] + (text + "\n```"@), CharClass::LineBreak);
            has_suffix(inner, "```"@) && trimmed(inner.take(inner.len() - "```"@.len())) == text
        }),
{
    reveal_strlit("\n```");
    reveal_strlit("```");
    let end = text + "\n```"@;
    let all = seq!['\n'] + end;
    assert(all[0] == '\n');
    assert(all.skip(1) =~= end);
    assert(end[0] == text[0]);
    assert(trim_start_of(end, CharClass::LineBreak) == end);
    assert(end.skip(end.len() - 3) =~= "```"@);
    let none = Seq::<char>::empty();
    assert(end.take(end.len() - 3) =~= none + text + seq!['\n']);
    lemma_trimming(none, text, seq!['\n']);
}

/// Of an answer in JSON, the most likely command counts; else the listed ones, in their order, but
/// for blanks. An answer that is no JSON gives its lines.
pub proof fn lemma_candidates(text: Seq<char>, value: JsonView, command: Seq<char>)
    ensures
        text_candidates(Seq::empty(), Some(value)).len() == 0,
        text_candidates(Seq::empty(), None).len() == 0,
        text.len() > 0 ==> text_candidates(text, None) == nonblank_lines(lines_of(text)),
        text.len() > 0 && value.get_str("most_likely_action"@) == Some(command) && !blank(command)
            ==> text_candidates(text, Some(value)) == seq![command],
        text.len() > 0 && value.get_str("most_likely_action"@) is None && value.get_array(
            "commands"@,
        ) is Some ==> text_candidates(text, Some(value)) == nonblank_strings(
            value.get_array("commands"@)->0,
        ),
        text.len() > 0 && value.get_str("most_likely_action"@) == Some(command) && blank(command)
            && value.get_array("commands"@) is Some ==> text_candidates(text, Some(value))
            == nonblank_strings(value.get_array("commands"@)->0),
        text.len() > 0 ==> text_candidates(text, Some(JsonView::Str(command))) == seq![command],
        text.len() > 0 && value is Array ==> text_candidates(text, Some(value)) == nonblank_strings(
            value->Array_0,
        ),
        text.len() > 0 && (value is Null || value is Bool || value is Number) ==> text_candidates(
            text,
            Some(value),
        ).len() == 0,
{
}

/// Blanks are no candidates; lines are trimmed, and texts in lists are not.
pub proof fn lemma_blanks_are_no_candidates(
    values: Seq<JsonView>,
    lines: Seq<Seq<char>>,
    text: Seq<char>,
    other: JsonView,
)
    requires
        !(other is Str),
    ensures
        nonblank_strings(values.push(other)) == nonblank_strings(values),
        blank(text) ==> nonblank_strings(values.push(JsonView::Str(text))) == nonblank_strings(
            values,
        ) && nonblank_lines(lines.push(text)) == nonblank_lines(lines),
        !blank(text) ==> nonblank_strings(values.push(JsonView::Str(text))) == nonblank_strings(
            values,
        ).push(text) && nonblank_lines(lines.push(text)) == nonblank_lines(lines).push(
            trimmed(text),
        ),
        nonblank_strings(Seq::empty()).len() == 0,
        nonblank_lines(Seq::empty()).len() == 0,
{
    assert(values.push(other).drop_last() =~= values);
    assert(values.push(JsonView::Str(text)).drop_last() =~= values);
    assert(lines.push(text).drop_last() =~= lines);
}

// ---------------------------------------------------------------------------------------------
// What is read of terminal blocks
// ---------------------------------------------------------------------------------------------
/// A text up to a quote is read as it is, and what was escaped in it is read back.
pub proof fn lemma_quoted_texts_are_read(text: Seq<char>, rest: Seq<char>)
    requires
        forall|i: int|
            0 <= i < text.len() ==> (#[trigger] text[i] as u32 >= 0x20 || text[i] == '\n'
                || text[i] == '\r' || text[i] == '\t'),
    ensures
        until_quote(escaped(text) + seq!['"'] + rest) == Some(text),
        until_quote(Seq::empty()) is None,
    decreases text.len(),
{
    let end = seq!['"'] + rest;
    if text.len() == 0 {
        assert(escaped(text) + seq!['"'] + rest =~= end);
        assert(end[0] == '"');
    } else {
        let c = text[0];
        let tail = text.skip(1);
        assert forall|i: int| 0 <= i < tail.len() implies (#[trigger] tail[i] as u32 >= 0x20
            || tail[i] == '\n' || tail[i] == '\r' || tail[i] == '\t') by {
            assert(tail[i] == text[i + 1]);
        }
        lemma_quoted_texts_are_read(tail, rest);
        lemma_how_texts_are_written(seq![c], tail, c);
        assert(seq![c] + tail =~= text);
        let after = escaped(tail) + seq!['"'] + rest;
        let all = escaped(text) + seq!['"'] + rest;
        assert(all =~= escape(c) + after);
        if escape(c).len() == 1 {
            assert(all[0] == c);
            assert(all.skip(1) =~= after);
        } else {
            assert(all[0] == '\\');
            assert(all[1] == escape(c)[1]);
            assert(all.skip(2) =~= after);
            assert(unescaped(escape(c)[1]) == c);
        }
        assert(seq![c] + tail =~= text);
    }
}

/// A field of a message that is no JSON is found behind its name.
pub proof fn lemma_fields_are_found(
    before: Seq<char>,
    field: Seq<char>,
    text: Seq<char>,
    rest: Seq<char>,
)
    requires
        forall|i: int|
            0 <= i < text.len() ==> (#[trigger] text[i] as u32 >= 0x20 || text[i] == '\n'
                || text[i] == '\r' || text[i] == '\t'),
        !holds_text(
            (before + ("\""@ + field + "\":\""@)).drop_last(),
            "\""@ + field + "\":\""@,
        ),
    ensures
        string_field_in(
            before + ("\""@ + field + "\":\""@) + (escaped(text) + seq!['"'] + rest),
            field,
        ) == Some(text),
{
    reveal_strlit("\":\"");
    let marker = "\""@ + field + "\":\""@;
    let tail = escaped(text) + seq!['"'] + rest;
    let all = before + marker + tail;
    let n = before.len() as int;
    lemma_found(all, marker);
    assert(stands_at(all, marker, n)) by {
        assert(all.subrange(n, n + marker.len()) =~= marker);
    }
    let start = (before + marker).drop_last();
    assert forall|j: int| 0 <= j < n implies !stands_at(all, marker, j) by {
        if stands_at(all, marker, j) {
            assert(start.subrange(j, j + marker.len()) =~= all.subrange(j, j + marker.len()));
            assert(stands_at(start, marker, j));
        }
    }
    assert(all.skip(n + marker.len()) =~= tail);
    lemma_quoted_texts_are_read(text, rest);
}

/// What a terminal block says: its input and its output, of an object by their names.
pub proof fn lemma_blocks_are_read(json: JsonView)
    requires
        json is Object,
    ensures
        suggestion_context_message(json) matches Some(message) ==> Some(message.input)
            == json.get_str("input"@) && Some(message.output) == json.get_str("output"@),
        suggestion_context_message(json) is Some <==> json.get_str("input"@) is Some
            && json.get_str("output"@) is Some,
        message_in_payload(ContextMessagePayloadView::Object(json)) == suggestion_context_message(
            json,
        ),
{
}

/// The last block that can be read counts, and what can be read as JSON is.
pub proof fn lemma_last_block_counts(
    messages: Seq<ContextMessagePayloadView>,
    last: ContextMessagePayloadView,
    text: Seq<char>,
    json: JsonView,
)
    ensures
        message_in_payload(last) is Some ==> latest_message(messages.push(last))
            == message_in_payload(last),
        message_in_payload(last) is None ==> latest_message(messages.push(last)) == latest_message(
            messages,
        ),
        latest_message(Seq::empty()) is None,
        suggestion_context_message(json) is Some ==> message_in_text(text, Ok(json))
            == suggestion_context_message(json),
        suggestion_context_message(json) is None ==> message_in_text(text, Ok(json))
            == forgiving_message(text),
        message_in_text(text, Err(text)) == forgiving_message(text),
        forgiving_message(text) matches Some(message) ==> string_field_in(text, "input"@) == Some(
            message.input,
        ) && string_field_in(text, "output"@) == Some(message.output),
        forgiving_message(text) is Some <==> string_field_in(text, "input"@) is Some
            && string_field_in(text, "output"@) is Some,
{
    assert(messages.push(last).drop_last() =~= messages);
}

/// Whether a text can be the name of a package.
pub open spec fn names_package(name: Seq<char>) -> bool {
    name.len() > 0 && forall|i: int|
        0 <= i < name.len() ==> {
            let c = #[trigger] name[i];
            ('a' <= c <= 'z') || ('A' <= c <= 'Z') || ('0' <= c <= '9') || c == '-' || c == '_'
                || c == '.' || c == '+' || c == '@'
        }
}

/// After a search for a package that found it, its installation is suggested.
pub proof fn lemma_installation_is_suggested(
    request: GenerateAIInputSuggestionsRequestView,
    message: SuggestionContextMessageView,
    name: Seq<char>,
)
    requires
        latest_message(request.context_messages) == Some(message),
        names_package(name),
        name[0] != '-',
        words_of(trimmed(message.input)) == seq!["brew"@, "search"@, name],
    ensures
        ({
            let output = trimmed(message.output);
            let lists = {
                &&& !holds_text(output, "No formula"@)
                &&& !holds_text(output, "No cask"@)
                &&& !holds_text(output, "Error:"@)
                &&& (exists|i: int|
                    0 <= i < words_of(output).len() && trimmed_of(
                        #[trigger] words_of(output)[i],
                        CharClass::NotAlphanumeric,
                    ) == name)
            };
            &&& output.len() > 0 && lists ==> brew_suggestion_for(request) == Some(
                "brew install "@ + name,
            )
            &&& !lists || output.len() == 0 ==> brew_suggestion_for(request) is None
            &&& lists && output.len() > 0 && allowed(request, "brew install "@ + name) ==> (
            local_suggestion(request) matches Some(answer) && answer.commands == seq![
                "brew install "@ + name,
            ] && answer.most_likely_action == "brew install "@ + name)
            &&& lists && output.len() > 0 && !allowed(request, "brew install "@ + name)
                ==> local_suggestion(request) is None
        }),
{
    let words = words_of(trimmed(message.input));
    assert(words.skip(2) =~= seq![name]);
    reveal_strlit("-");
    assert(!has_prefix(name, "-"@)) by {
        if has_prefix(name, "-"@) {
            assert(name.take(1)[0] == "-"@[0]);
        }
    }
    assert(package_name(name));
    assert(brew_query(message.input) == Some(name));
}

/// Options of a search are passed over, and other commands are none.
pub proof fn lemma_what_was_searched_for(
    input: Seq<char>,
    option: Seq<char>,
    words: Seq<Seq<char>>,
)
    ensures
        has_prefix(option, "-"@) ==> first_operand(seq![option] + words) == first_operand(words),
        !has_prefix(option, "-"@) ==> first_operand(seq![option] + words) == Some(option),
        first_operand(Seq::empty()) is None,
        words_of(trimmed(input)).len() < 3 ==> brew_query(input) is None,
        words_of(trimmed(input)).len() > 0 && words_of(trimmed(input))[0] != "brew"@ ==> brew_query(
            input,
        ) is None,
        words_of(trimmed(input)).len() > 1 && words_of(trimmed(input))[1] != "search"@
            ==> brew_query(input) is None,
        brew_query(input) matches Some(name) ==> names_package(name) && words_of(
            trimmed(input),
        ).contains(name),
{
    let all = seq![option] + words;
    assert(all[0] == option);
    assert(all.skip(1) =~= words);
    let said = words_of(trimmed(input));
    if said.len() >= 2 {
        lemma_operand_is_a_word(said.skip(2));
        if first_operand(said.skip(2)) is Some {
            let name = first_operand(said.skip(2))->0;
            let k = choose|k: int| 0 <= k < said.skip(2).len() && said.skip(2)[k] == name;
            assert(said[k + 2] == name);
        }
    }
}

proof fn lemma_operand_is_a_word(words: Seq<Seq<char>>)
    ensures
        first_operand(words) matches Some(word) ==> words.contains(word),
    decreases words.len(),
{
    if words.len() > 0 {
        if has_prefix(words[0], "-"@) {
            lemma_operand_is_a_word(words.skip(1));
            if first_operand(words.skip(1)) is Some {
                let word = first_operand(words.skip(1))->0;
                let k = choose|k: int| 0 <= k < words.skip(1).len() && words.skip(1)[k] == word;
                assert(words[k + 1] == word);
            }
        } else {
            assert(words[0] == first_operand(words)->0);
        }
    }
}

/// Where no quote ends a text, there is none.
pub proof fn lemma_unended_texts(text: Seq<char>)
    requires
        forall|i: int| 0 <= i < text.len() ==> #[trigger] text[i] != '"',
    ensures
        until_quote(text) is None,
    decreases text.len(),
{
    if text.len() > 0 {
        if text[0] == '\\' {
            if text.len() >= 2 {
                let rest = text.skip(2);
                assert forall|i: int| 0 <= i < rest.len() implies #[trigger] rest[i] != '"' by {
                    assert(rest[i] == text[i + 2]);
                }
                lemma_unended_texts(rest);
            }
        } else {
            let rest = text.skip(1);
            assert forall|i: int| 0 <= i < rest.len() implies #[trigger] rest[i] != '"' by {
                assert(rest[i] == text[i + 1]);
            }
            lemma_unended_texts(rest);
        }
    }
}

/// What was searched for is the first word behind the command that is no option.
pub proof fn lemma_searches_are_read(input: Seq<char>, rest: Seq<Seq<char>>, name: Seq<char>)
    requires
        words_of(trimmed(input)) == seq!["brew"@, "search"@] + rest,
    ensures
        first_operand(rest) == Some(name) && names_package(name) ==> brew_query(input) == Some(
            name,
        ),
        first_operand(rest) == Some(name) && !names_package(name) ==> brew_query(input) is None,
        first_operand(rest) is None ==> brew_query(input) is None,
{
    let words = seq!["brew"@, "search"@] + rest;
    assert(words.skip(2) =~= rest);
    assert(words[0] == "brew"@ && words[1] == "search"@);
    if names_package(name) {
        assert(package_name(name));
    } else if package_name(name) {
        assert forall|i: int| 0 <= i < name.len() implies ({
            let c = #[trigger] name[i];
            ('a' <= c <= 'z') || ('A' <= c <= 'Z') || ('0' <= c <= '9') || c == '-' || c == '_'
                || c == '.' || c == '+' || c == '@'
        }) by {
            assert(package_char(name[i]));
        }
        assert(names_package(name));
    }
}

/// A fence that is not closed is taken off all the same.
pub proof fn lemma_open_fences_are_taken_off(text: Seq<char>)
    requires
        text.len() > 0,
        !white(text[0]),
        !white(text.last()),
        !has_suffix(text, "```"@),
    ensures
        without_fences("```json\n"@ + text) == text,
        without_fences("```\n"@ + text) == text,
{
    reveal_strlit("```json\n");
    reveal_strlit("```\n");
    reveal_strlit("```");
    reveal_strlit("json");
    reveal_strlit("JSON");
    lemma_nothing_to_trim(text);
    let inside = seq!['\n'] + text;
    assert(inside[0] == '\n');
    assert(inside.skip(1) =~= text);
    assert(trim_start_of(text, CharClass::LineBreak) == text);
    assert(trim_start_of(inside, CharClass::LineBreak) == text);
    let all = "```json\n"@ + text;
    assert(all[0] == '`');
    lemma_nothing_to_trim(all);
    assert(all.take(3) =~= "```"@);
    let inner = all.skip(3);
    assert(inner.take(4) =~= "json"@);
    assert(inner.skip(4) =~= inside);
    let all = "```\n"@ + text;
    assert(all[0] == '`');
    lemma_nothing_to_trim(all);
    assert(all.take(3) =~= "```"@);
    let inner = all.skip(3);
    assert(inner =~= inside);
    if inner.len() >= 4 {
        assert(inner.take(4)[0] == '\n');
        assert(inner.take(4)[0] != "json"@[0]);
        assert(inner.take(4)[0] != "JSON"@[0]);
    }
}

} // verus!
