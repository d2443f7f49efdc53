//! The configuration of the proxy: environment variables come before its own configuration file,
//! that comes before the configuration of Codex, and that comes before the defaults.
use crate::addresses::{is_socket_address, socket_address};
use crate::headers::{
    header_value, last_value, lemma_put_header_reads_back, lemma_put_headers_reads_back, put_header,
    put_headers, Headers,
};
use crate::json::{json_reading, parse_json, Json, JsonView};
use crate::json::{lemma_object_view, members_view};
use crate::lists::{borrowed, owned};
use crate::record::{field, field_of, is_record, opt_text_at, opt_text_field, record};
use crate::text::{
    all_digits, blank, first_of, found, is_blank, lemma_found, lowered, number_of, opt_view,
    parse_u64, parsed_u64, pieces_of, res_view, same, stands_at, to_ascii_lowercase, trim,
    trim_end_class, trim_end_of, trimmed, CharClass,
};
use crate::toml::{parse_toml, toml_reading, Toml, TomlView};
use crate::toml::{entries_view, lemma_table_view};
use crate::asked::text_if_any;
use vstd::prelude::*;

verus! {

/// The base URL of the backend, where nothing else is configured.
pub const DEFAULT_OCA_BASE_URL: &'static str =
    "https://code-internal.aiservice.us-chicago-1.oci.oraclecloud.com/20250206/app/litellm";

/// The model, where nothing else is configured.
pub const DEFAULT_MODEL: &'static str = "gpt-5.5";

/// The instructions to the agent, where nothing else is configured.
pub const DEFAULT_AGENT_SYSTEM_PROMPT: &'static str =
    "You are WarpOCA, an agent running inside the Warp terminal UI. Be concise, but behave like an active terminal operator: state what you are about to do, call tools for terminal work, observe the returned output, adapt, and finish with a clear conclusion. Do not emit only tool calls when a short user-facing status sentence would help. Never claim a command ran, a file changed, or a remote host state was verified until Warp returns the tool result. If a command is still running, monitor it with the long-running command tools and explain what you observe.";

// ---------------------------------------------------------------------------------------------
// The protocol of the backend
// ---------------------------------------------------------------------------------------------
/// The protocol that the backend speaks.
#[derive(Clone, Copy, Debug, PartialEq, Eq, Structural)]
pub enum WireApi {
    ChatCompletions,
    Responses,
}

/// The protocol that a name stands for, in any case of the letters and with white space around it.
pub open spec fn wire_api_named(name: Seq<char>) -> Option<WireApi> {
    let name = lowered(trimmed(name));
    if name == "chat"@ || name == "chat_completions"@ || name == "chat-completions"@ || name
        == "openai_chat"@ {
        Some(WireApi::ChatCompletions)
    } else if name == "responses"@ || name == "openai_responses"@ || name == "responses_api"@ {
        Some(WireApi::Responses)
    } else {
        None
    }
}

impl WireApi {
    /// The protocol that a name stands for.
    pub fn parse(value: &str) -> (r: Option<Self>)
        ensures
            r == wire_api_named(value@),
    {
        let name = to_ascii_lowercase(trim(value));
        let name = name.as_str();
        if same(name, "chat") || same(name, "chat_completions") || same(name, "chat-completions")
            || same(name, "openai_chat") {
            Some(WireApi::ChatCompletions)
        } else if same(name, "responses") || same(name, "openai_responses") || same(
            name,
            "responses_api",
        ) {
            Some(WireApi::Responses)
        } else {
            None
        }
    }

    /// The name of the protocol.
    pub open spec fn name(self) -> Seq<char> {
        match self {
            WireApi::ChatCompletions => "chat_completions"@,
            WireApi::Responses => "responses"@,
        }
    }

    /// The name of the protocol.
    pub fn as_str(self) -> (r: &'static str)
        ensures
            r@ == self.name(),
    {
        match self {
            WireApi::ChatCompletions => "chat_completions",
            WireApi::Responses => "responses",
        }
    }

    /// The path at which a backend offers the protocol.
    pub open spec fn path(self) -> Seq<char> {
        match self {
            WireApi::ChatCompletions => "chat/completions"@,
            WireApi::Responses => "responses"@,
        }
    }

    /// The path at which a backend offers the protocol.
    pub fn endpoint(self) -> (r: &'static str)
        ensures
            r@ == self.path(),
    {
        match self {
            WireApi::ChatCompletions => "chat/completions",
            WireApi::Responses => "responses",
        }
    }
}

/// The name of a protocol stands for that protocol.
pub proof fn lemma_wire_api_name_is_known(api: WireApi)
    ensures
        wire_api_named(api.name()) == Some(api),
{
    reveal_strlit("chat_completions");
    reveal_strlit("responses");
    reveal_strlit("chat");
    reveal_strlit("chat-completions");
    reveal_strlit("openai_chat");
    let name = api.name();
    assert(trimmed(name) == name);
    assert(lowered(name) =~= name);
}

// ---------------------------------------------------------------------------------------------
// Values that may be missing
// ---------------------------------------------------------------------------------------------
/// A value without the white space around it, unless nothing is left.
pub open spec fn nonempty(value: Option<Seq<char>>) -> Option<Seq<char>> {
    match value {
        Some(v) => if blank(v) {
            None
        } else {
            Some(trimmed(v))
        },
        None => None,
    }
}

/// The first of two values that is there.
pub open spec fn or_else<T>(first: Option<T>, second: Option<T>) -> Option<T> {
    match first {
        Some(v) => Some(v),
        None => second,
    }
}

/// A value without the white space around it, unless nothing is left.
pub fn nonempty_string(value: Option<&str>) -> (r: Option<String>)
    ensures
        opt_view(r) == nonempty(opt_view(value)),
{
    match value {
        Some(v) => if is_blank(v) {
            None
        } else {
            Some(trim(v).to_owned())
        },
        None => None,
    }
}

/// The first of two texts that is there.
fn first_text(first: Option<String>, second: Option<String>) -> (r: Option<String>)
    ensures
        opt_view(r) == or_else(opt_view(first), opt_view(second)),
{
    match first {
        Some(v) => Some(v),
        None => second,
    }
}

// ---------------------------------------------------------------------------------------------
// Headers in JSON and TOML
// ---------------------------------------------------------------------------------------------
/// The headers that the members of an object give, or the name of the first that is no string.
pub open spec fn headers_of_members(members: Seq<(Seq<char>, JsonView)>) -> Result<
    Seq<(Seq<char>, Seq<char>)>,
    Seq<char>,
>
    decreases members.len(),
{
    if members.len() == 0 {
        Ok(Seq::empty())
    } else {
        match headers_of_members(members.drop_last()) {
            Ok(headers) => match members.last().1.as_str() {
                Some(value) => Ok(put_header(headers, members.last().0, value)),
                None => Err(members.last().0),
            },
            Err(name) => Err(name),
        }
    }
}

/// The first member that is no string stays the first when more members follow.
proof fn lemma_first_misfit_stays(members: Seq<(Seq<char>, JsonView)>, n: int)
    requires
        0 <= n <= members.len(),
        headers_of_members(members.take(n)) is Err,
    ensures
        headers_of_members(members) == headers_of_members(members.take(n)),
    decreases members.len() - n,
{
    if n == members.len() {
        assert(members.take(n) == members);
    } else {
        assert(members.take(n + 1).drop_last() == members.take(n));
        lemma_first_misfit_stays(members, n + 1);
    }
}

/// The headers that the members of an object give.
fn read_members(members: &Vec<(String, Json)>) -> (r: Result<Headers, String>)
    ensures
        res_view(r) == headers_of_members(members_view(members@)),
{
    let ghost all = members_view(members@);
    let mut headers = Headers::new();
    let mut i: usize = 0;
    while i < members.len()
        invariant
            i <= members.len(),
            all == members_view(members@),
            headers_of_members(all.take(i as int)) == Ok::<_, Seq<char>>(headers@),
        decreases members.len() - i,
    {
        assert(all.take(i + 1).drop_last() == all.take(i as int));
        match members[i].1.as_str() {
            Some(value) => {
                headers.put(members[i].0.clone(), value.to_owned());
            },
            None => {
                proof {
                    lemma_first_misfit_stays(all, i + 1);
                }
                return Err(members[i].0.clone());
            },
        }
        i += 1;
    }
    assert(all.take(all.len() as int) == all);
    Ok(headers)
}

/// The headers that a JSON object of strings gives.
pub open spec fn extra_headers(parsed: Result<JsonView, Seq<char>>) -> Result<
    Seq<(Seq<char>, Seq<char>)>,
    Seq<char>,
> {
    match parsed {
        Ok(JsonView::Object(members)) => match headers_of_members(members) {
            Ok(headers) => Ok(headers),
            Err(name) => Err(
                "BYOB_EXTRA_HEADERS_JSON value for `"@ + name + "` must be a string"@,
            ),
        },
        Ok(_) => Err("BYOB_EXTRA_HEADERS_JSON must be a JSON object"@),
        Err(message) => Err(message),
    }
}

/// The headers that a JSON object of strings gives.
pub fn extra_headers_from_json(parsed: Result<Json, String>) -> (r: Result<Headers, String>)
    ensures
        res_view(r) == extra_headers(res_view(parsed)),
{
    match parsed {
        Ok(json) => match &json {
            Json::Object(members) => {
                proof {
                    lemma_object_view(*members);
                }
                match read_members(members) {
                    Ok(headers) => Ok(headers),
                    Err(name) => {
                        let mut message = "BYOB_EXTRA_HEADERS_JSON value for `".to_owned();
                        message.append(name.as_str());
                        message.append("` must be a string");
                        Err(message)
                    },
                }
            },
            _ => Err("BYOB_EXTRA_HEADERS_JSON must be a JSON object".to_owned()),
        },
        Err(message) => Err(message),
    }
}

/// The headers that a text gives, which is a JSON object of strings.
pub fn parse_extra_headers_json(contents: &str) -> (r: Result<Headers, String>)
    ensures
        res_view(r) == extra_headers(json_reading(contents@)),
{
    extra_headers_from_json(parse_json(contents))
}

/// The headers that the strings among the entries of a table give.
pub open spec fn headers_of_entries(entries: Seq<(Seq<char>, Option<Seq<char>>)>) -> Seq<
    (Seq<char>, Seq<char>),
>
    decreases entries.len(),
{
    if entries.len() == 0 {
        Seq::empty()
    } else {
        let headers = headers_of_entries(entries.drop_last());
        match entries.last().1 {
            Some(value) => put_header(headers, entries.last().0, value),
            None => headers,
        }
    }
}

/// The entries of a table, each with its text where it is a string.
pub open spec fn string_entries(entries: Seq<(Seq<char>, TomlView)>) -> Seq<
    (Seq<char>, Option<Seq<char>>),
> {
    Seq::new(entries.len(), |i: int| (entries[i].0, entries[i].1.as_str()))
}

/// The headers that a table gives, within a line or not.
pub open spec fn toml_headers(item: TomlView) -> Seq<(Seq<char>, Seq<char>)> {
    match item {
        TomlView::Table(entries) => headers_of_entries(string_entries(entries)),
        TomlView::Inline(entries) => headers_of_entries(entries),
        _ => Seq::empty(),
    }
}

/// The headers that a table gives.
pub fn parse_toml_headers(item: &Toml) -> (r: Headers)
    ensures
        r@ == toml_headers(item@),
{
    let mut headers = Headers::new();
    match item {
        Toml::Table(entries) => {
            proof {
                lemma_table_view(*entries);
            }
            let ghost all = string_entries(entries_view(entries@));
            let mut i: usize = 0;
            while i < entries.len()
                invariant
                    i <= entries.len(),
                    all == string_entries(entries_view(entries@)),
                    headers@ == headers_of_entries(all.take(i as int)),
                decreases entries.len() - i,
            {
                assert(all.take(i + 1).drop_last() == all.take(i as int));
                match entries[i].1.as_str() {
                    Some(value) => {
                        headers.put(entries[i].0.clone(), value.to_owned());
                    },
                    None => {},
                }
                i += 1;
            }
            assert(all.take(all.len() as int) == all);
        },
        Toml::Inline(entries) => {
            let ghost all = item@->Inline_0;
            let mut i: usize = 0;
            while i < entries.len()
                invariant
                    i <= entries.len(),
                    all.len() == entries.len(),
                    forall|k: int|
                        0 <= k < all.len() ==> (#[trigger] all[k]) == (
                            entries@[k].0@,
                            opt_view(entries@[k].1),
                        ),
                    headers@ == headers_of_entries(all.take(i as int)),
                decreases entries.len() - i,
            {
                assert(all.take(i + 1).drop_last() == all.take(i as int));
                match &entries[i].1 {
                    Some(value) => {
                        headers.put(entries[i].0.clone(), value.clone());
                    },
                    None => {},
                }
                i += 1;
            }
            assert(all.take(all.len() as int) == all);
        },
        _ => {},
    }
    headers
}

// ---------------------------------------------------------------------------------------------
// The configuration of Codex
// ---------------------------------------------------------------------------------------------
/// What the configuration of Codex says of the backend.
#[derive(Debug)]
pub struct CodexBackendConfig {
    pub base_url: Option<String>,
    pub api_key: Option<String>,
    pub model: Option<String>,
    pub wire_api: Option<WireApi>,
    pub http_headers: Headers,
}

/// The model of [`CodexBackendConfig`].
#[verifier::ext_equal]
pub struct CodexBackendConfigView {
    pub base_url: Option<Seq<char>>,
    pub api_key: Option<Seq<char>>,
    pub model: Option<Seq<char>>,
    pub wire_api: Option<WireApi>,
    pub http_headers: Seq<(Seq<char>, Seq<char>)>,
}

impl View for CodexBackendConfig {
    type V = CodexBackendConfigView;

    open spec fn view(&self) -> CodexBackendConfigView {
        CodexBackendConfigView {
            base_url: opt_view(self.base_url),
            api_key: opt_view(self.api_key),
            model: opt_view(self.model),
            wire_api: self.wire_api,
            http_headers: self.http_headers@,
        }
    }
}

/// The table of the profile in use.
pub open spec fn codex_profile(doc: TomlView) -> Option<TomlView> {
    match doc.get_str("profile"@) {
        Some(name) => doc.table_in("profiles"@, name),
        None => None,
    }
}

/// The name of the provider: that of the profile in use, or else that of the document.
pub open spec fn codex_provider(doc: TomlView) -> Option<Seq<char>> {
    or_else(
        match codex_profile(doc) {
            Some(profile) => profile.get_str("model_provider"@),
            None => None,
        },
        doc.get_str("model_provider"@),
    )
}

/// The text of that name in an optional table.
pub open spec fn text_in(table: Option<TomlView>, name: Seq<char>) -> Option<Seq<char>> {
    match table {
        Some(t) => t.get_str(name),
        None => None,
    }
}

/// What a configuration of Codex says of the backend: the model of the profile, of the document or
/// of the provider, and the rest from the provider.
pub open spec fn codex_config(doc: TomlView) -> CodexBackendConfigView {
    let provider = match codex_provider(doc) {
        Some(name) => doc.table_in("model_providers"@, name),
        None => None,
    };
    CodexBackendConfigView {
        base_url: text_in(provider, "base_url"@),
        api_key: None,
        model: or_else(
            text_in(codex_profile(doc), "model"@),
            or_else(doc.get_str("model"@), text_in(provider, "model"@)),
        ),
        wire_api: match text_in(provider, "wire_api"@) {
            Some(name) => wire_api_named(name),
            None => None,
        },
        http_headers: match provider {
            Some(table) => match table.get("http_headers"@) {
                Some(item) => toml_headers(item),
                None => Seq::empty(),
            },
            None => Seq::empty(),
        },
    }
}

/// The table of the profile in use.
fn find_profile<'a>(doc: &'a Toml) -> (r: Option<&'a Toml>)
    ensures
        opt_view(r) == codex_profile(doc@),
{
    match doc.get_str("profile") {
        Some(name) => doc.table_in("profiles", name),
        None => None,
    }
}

/// The text of that name in an optional table.
fn find_text<'a>(table: Option<&'a Toml>, name: &str) -> (r: Option<&'a str>)
    ensures
        opt_view(r) == text_in(opt_view(table), name@),
{
    match table {
        Some(t) => t.get_str(name),
        None => None,
    }
}

/// The name of the provider.
pub fn codex_provider_name(doc: &Toml) -> (r: Option<String>)
    ensures
        opt_view(r) == codex_provider(doc@),
{
    match find_text(find_profile(doc), "model_provider") {
        Some(name) => Some(name.to_owned()),
        None => owned(doc.get_str("model_provider")),
    }
}

/// What a document says of the backend.
pub fn codex_config_from_document(doc: &Toml) -> (r: CodexBackendConfig)
    ensures
        r@ == codex_config(doc@),
{
    let provider = match codex_provider_name(doc) {
        Some(name) => doc.table_in("model_providers", name.as_str()),
        None => None,
    };
    let model = match find_text(find_profile(doc), "model") {
        Some(model) => Some(model),
        None => match doc.get_str("model") {
            Some(model) => Some(model),
            None => find_text(provider, "model"),
        },
    };
    let wire_api = match find_text(provider, "wire_api") {
        Some(name) => WireApi::parse(name),
        None => None,
    };
    let http_headers = match provider {
        Some(table) => match table.get("http_headers") {
            Some(item) => parse_toml_headers(item),
            None => Headers::new(),
        },
        None => Headers::new(),
    };
    CodexBackendConfig {
        base_url: owned(find_text(provider, "base_url")),
        api_key: None,
        model: owned(model),
        wire_api,
        http_headers,
    }
}

/// What a configuration of Codex says of the backend, given by its text.
pub open spec fn codex_config_in(parsed: Result<TomlView, Seq<char>>) -> Result<
    CodexBackendConfigView,
    Seq<char>,
> {
    match parsed {
        Ok(doc) => Ok(codex_config(doc)),
        Err(message) => Err(message),
    }
}

/// What a configuration of Codex says of the backend, or why it says nothing.
pub fn parse_codex_config(contents: &str) -> (r: Result<CodexBackendConfig, String>)
    ensures
        res_view(r) == codex_config_in(toml_reading(contents@)),
{
    match parse_toml(contents) {
        Ok(doc) => Ok(codex_config_from_document(&doc)),
        Err(message) => Err(message),
    }
}

/// The key that a file of credentials holds.
pub open spec fn auth_api_key(parsed: Result<JsonView, Seq<char>>) -> Option<Seq<char>> {
    match parsed {
        Ok(json) => nonempty(json.get_str("OPENAI_API_KEY"@)),
        Err(_) => None,
    }
}

/// The key that a parsed file of credentials holds.
pub fn api_key_from_json(parsed: Result<Json, String>) -> (r: Option<String>)
    ensures
        opt_view(r) == auth_api_key(res_view(parsed)),
{
    match parsed {
        Ok(json) => nonempty_string(json.get_str("OPENAI_API_KEY")),
        Err(_) => None,
    }
}

/// The key that a file of credentials holds.
pub fn parse_codex_auth_api_key(contents: &str) -> (r: Option<String>)
    ensures
        opt_view(r) == auth_api_key(json_reading(contents@)),
{
    api_key_from_json(parse_json(contents))
}

/// A configuration that says nothing.
pub open spec fn no_codex_config() -> CodexBackendConfigView {
    CodexBackendConfigView {
        base_url: None,
        api_key: None,
        model: None,
        wire_api: None,
        http_headers: Seq::empty(),
    }
}

/// What the two files of Codex say of the backend, where they could be read.
pub open spec fn codex_backend(
    config: Option<Seq<char>>,
    auth: Option<Seq<char>>,
) -> CodexBackendConfigView {
    let base = match config {
        Some(text) => match codex_config_in(toml_reading(text)) {
            Ok(base) => base,
            Err(_) => no_codex_config(),
        },
        None => no_codex_config(),
    };
    CodexBackendConfigView {
        api_key: match auth {
            Some(text) => auth_api_key(json_reading(text)),
            None => None,
        },
        ..base
    }
}

/// What the two files of Codex say of the backend. A file that cannot be read or parsed says
/// nothing.
pub fn load_codex_backend_config(
    config: Option<&str>,
    auth: Option<&str>,
) -> (r: CodexBackendConfig)
    ensures
        r@ == codex_backend(opt_view(config), opt_view(auth)),
{
    let parsed = match config {
        Some(text) => match parse_codex_config(text) {
            Ok(base) => Some(base),
            Err(_) => None,
        },
        None => None,
    };
    let mut base = match parsed {
        Some(base) => base,
        None => CodexBackendConfig {
            base_url: None,
            api_key: None,
            model: None,
            wire_api: None,
            http_headers: Headers::new(),
        },
    };
    base.api_key = match auth {
        Some(text) => parse_codex_auth_api_key(text),
        None => None,
    };
    base
}

// ---------------------------------------------------------------------------------------------
// The configuration file of the proxy
// ---------------------------------------------------------------------------------------------
/// What the configuration file of the proxy says.
#[derive(Debug)]
pub struct ByobConfigFile {
    pub openai_base_url: Option<String>,
    pub backend_url_override: Option<String>,
    pub openai_api_key: Option<String>,
    pub model: Option<String>,
    pub wire_api: Option<String>,
    pub extra_headers: Headers,
}

/// The model of [`ByobConfigFile`].
#[verifier::ext_equal]
pub struct ByobConfigFileView {
    pub openai_base_url: Option<Seq<char>>,
    pub backend_url_override: Option<Seq<char>>,
    pub openai_api_key: Option<Seq<char>>,
    pub model: Option<Seq<char>>,
    pub wire_api: Option<Seq<char>>,
    pub extra_headers: Seq<(Seq<char>, Seq<char>)>,
}

impl View for ByobConfigFile {
    type V = ByobConfigFileView;

    open spec fn view(&self) -> ByobConfigFileView {
        ByobConfigFileView {
            openai_base_url: opt_view(self.openai_base_url),
            backend_url_override: opt_view(self.backend_url_override),
            openai_api_key: opt_view(self.openai_api_key),
            model: opt_view(self.model),
            wire_api: opt_view(self.wire_api),
            extra_headers: self.extra_headers@,
        }
    }
}

/// An optional text under one of two names, of which an object holds at most one.
pub open spec fn aliased_field(
    json: JsonView,
    index: int,
    name: Seq<char>,
    alias: Seq<char>,
) -> Option<Option<Seq<char>>> {
    match (json.get(name), json.get(alias)) {
        (_, None) => opt_text_field(json, index, name),
        (None, Some(_)) => opt_text_field(json, index, alias),
        (Some(_), Some(_)) => None,
    }
}

/// Decodes an optional text under one of two names.
fn aliased_at(json: &Json, index: usize, name: &str, alias: &str) -> (r: Option<Option<String>>)
    ensures
        r is Some <==> aliased_field(json@, index as int, name@, alias@) is Some,
        r matches Some(v) ==> aliased_field(json@, index as int, name@, alias@) == Some(
            opt_view(v),
        ),
{
    match (json.get(name), json.get(alias)) {
        (_, None) => opt_text_at(json, index, name),
        (None, Some(_)) => opt_text_at(json, index, alias),
        (Some(_), Some(_)) => None,
    }
}

/// The headers of a configuration file, none where they are missing.
pub open spec fn file_headers(json: JsonView) -> Option<Seq<(Seq<char>, Seq<char>)>> {
    let value = match (json.get("extra_headers"@), json.get("http_headers"@)) {
        (_, None) => Some(field(json, 5, "extra_headers"@)),
        (None, Some(_)) => Some(field(json, 5, "http_headers"@)),
        (Some(_), Some(_)) => None,
    };
    match value {
        Some(Some(JsonView::Object(members))) => match headers_of_members(members) {
            Ok(headers) => Some(headers),
            Err(_) => None,
        },
        Some(None) => Some(Seq::empty()),
        _ => None,
    }
}

/// Decodes the headers of a configuration file.
fn file_headers_at(json: &Json) -> (r: Option<Headers>)
    ensures
        opt_view(r) == file_headers(json@),
{
    let value = match (json.get("extra_headers"), json.get("http_headers")) {
        (_, None) => field_of(json, 5, "extra_headers"),
        (None, Some(_)) => field_of(json, 5, "http_headers"),
        (Some(_), Some(_)) => {
            return None;
        },
    };
    match value {
        Some(value) => match value {
            Json::Object(members) => {
                proof {
                    lemma_object_view(*members);
                }
                match read_members(members) {
                    Ok(headers) => Some(headers),
                    Err(_) => None,
                }
            },
            _ => None,
        },
        None => Some(Headers::new()),
    }
}

/// What a configuration file says, given as JSON.
pub open spec fn byob_config(json: JsonView) -> Option<ByobConfigFileView> {
    if !record(json, 6) {
        None
    } else {
        match (
            aliased_field(json, 0, "openai_base_url"@, "base_url"@),
            aliased_field(json, 1, "backend_url_override"@, "backend_url"@),
            aliased_field(json, 2, "openai_api_key"@, "api_key"@),
            opt_text_field(json, 3, "model"@),
            opt_text_field(json, 4, "wire_api"@),
            file_headers(json),
        ) {
            (
                Some(openai_base_url),
                Some(backend_url_override),
                Some(openai_api_key),
                Some(model),
                Some(wire_api),
                Some(extra_headers),
            ) => Some(
                ByobConfigFileView {
                    openai_base_url,
                    backend_url_override,
                    openai_api_key,
                    model,
                    wire_api,
                    extra_headers,
                },
            ),
            _ => None,
        }
    }
}

impl ByobConfigFile {
    /// Decodes a configuration file.
    pub fn from_json(json: &Json) -> (r: Option<Self>)
        ensures
            opt_view(r) == byob_config(json@),
    {
        if !is_record(json, 6) {
            return None;
        }
        match (
            aliased_at(json, 0, "openai_base_url", "base_url"),
            aliased_at(json, 1, "backend_url_override", "backend_url"),
            aliased_at(json, 2, "openai_api_key", "api_key"),
            opt_text_at(json, 3, "model"),
            opt_text_at(json, 4, "wire_api"),
            file_headers_at(json),
        ) {
            (
                Some(openai_base_url),
                Some(backend_url_override),
                Some(openai_api_key),
                Some(model),
                Some(wire_api),
                Some(extra_headers),
            ) => Some(
                ByobConfigFile {
                    openai_base_url,
                    backend_url_override,
                    openai_api_key,
                    model,
                    wire_api,
                    extra_headers,
                },
            ),
            _ => None,
        }
    }
}

/// A configuration file that says nothing.
pub open spec fn no_byob_config() -> ByobConfigFileView {
    ByobConfigFileView {
        openai_base_url: None,
        backend_url_override: None,
        openai_api_key: None,
        model: None,
        wire_api: None,
        extra_headers: Seq::empty(),
    }
}

/// What a configuration file says, where it could be read.
pub open spec fn byob_config_in(contents: Option<Seq<char>>) -> ByobConfigFileView {
    match contents {
        Some(text) => match json_reading(text) {
            Ok(json) => match byob_config(json) {
                Some(config) => config,
                None => no_byob_config(),
            },
            Err(_) => no_byob_config(),
        },
        None => no_byob_config(),
    }
}

/// What a configuration file says. One that cannot be read or decoded says nothing.
pub fn load_byob_config_file(contents: Option<&str>) -> (r: ByobConfigFile)
    ensures
        r@ == byob_config_in(opt_view(contents)),
{
    let config = match contents {
        Some(text) => match parse_json(text) {
            Ok(json) => ByobConfigFile::from_json(&json),
            Err(_) => None,
        },
        None => None,
    };
    match config {
        Some(config) => config,
        None => ByobConfigFile {
            openai_base_url: None,
            backend_url_override: None,
            openai_api_key: None,
            model: None,
            wire_api: None,
            extra_headers: Headers::new(),
        },
    }
}

// ---------------------------------------------------------------------------------------------
// The configuration in force
// ---------------------------------------------------------------------------------------------
/// The environment variables that configure the proxy, where they are set.
#[derive(Debug)]
pub struct EnvValues {
    /// `BYOB_PROXY_LISTEN`
    pub listen: Option<String>,
    /// `BYOB_OPENAI_BASE_URL`
    pub openai_base_url: Option<String>,
    /// `BYOB_BACKEND_URL`
    pub backend_url: Option<String>,
    /// `BYOB_OPENAI_API_KEY`
    pub openai_api_key: Option<String>,
    /// `BYOB_MODEL`
    pub model: Option<String>,
    /// `BYOB_WIRE_API`
    pub wire_api: Option<String>,
    /// `BYOB_EXTRA_HEADERS_JSON`
    pub extra_headers_json: Option<String>,
    /// `BYOB_SYSTEM_PROMPT`
    pub system_prompt: Option<String>,
    /// `BYOB_REQUEST_TIMEOUT_SECS`
    pub request_timeout_secs: Option<String>,
}

/// The model of [`EnvValues`].
#[verifier::ext_equal]
pub struct EnvValuesView {
    pub listen: Option<Seq<char>>,
    pub openai_base_url: Option<Seq<char>>,
    pub backend_url: Option<Seq<char>>,
    pub openai_api_key: Option<Seq<char>>,
    pub model: Option<Seq<char>>,
    pub wire_api: Option<Seq<char>>,
    pub extra_headers_json: Option<Seq<char>>,
    pub system_prompt: Option<Seq<char>>,
    pub request_timeout_secs: Option<Seq<char>>,
}

impl View for EnvValues {
    type V = EnvValuesView;

    open spec fn view(&self) -> EnvValuesView {
        EnvValuesView {
            listen: opt_view(self.listen),
            openai_base_url: opt_view(self.openai_base_url),
            backend_url: opt_view(self.backend_url),
            openai_api_key: opt_view(self.openai_api_key),
            model: opt_view(self.model),
            wire_api: opt_view(self.wire_api),
            extra_headers_json: opt_view(self.extra_headers_json),
            system_prompt: opt_view(self.system_prompt),
            request_timeout_secs: opt_view(self.request_timeout_secs),
        }
    }
}

/// The configuration in force.
#[derive(Debug)]
pub struct Config {
    /// The address to listen on.
    pub listen_addr: String,
    pub openai_base_url: String,
    pub backend_url_override: Option<String>,
    pub openai_api_key: Option<String>,
    pub model_override: Option<String>,
    pub wire_api: WireApi,
    pub extra_headers: Headers,
    pub system_prompt: String,
    pub request_timeout_secs: u64,
}

/// The model of [`Config`].
#[verifier::ext_equal]
pub struct ConfigView {
    pub listen_addr: Seq<char>,
    pub openai_base_url: Seq<char>,
    pub backend_url_override: Option<Seq<char>>,
    pub openai_api_key: Option<Seq<char>>,
    pub model_override: Option<Seq<char>>,
    pub wire_api: WireApi,
    pub extra_headers: Seq<(Seq<char>, Seq<char>)>,
    pub system_prompt: Seq<char>,
    pub request_timeout_secs: u64,
}

impl View for Config {
    type V = ConfigView;

    open spec fn view(&self) -> ConfigView {
        ConfigView {
            listen_addr: self.listen_addr@,
            openai_base_url: self.openai_base_url@,
            backend_url_override: opt_view(self.backend_url_override),
            openai_api_key: opt_view(self.openai_api_key),
            model_override: opt_view(self.model_override),
            wire_api: self.wire_api,
            extra_headers: self.extra_headers@,
            system_prompt: self.system_prompt@,
            request_timeout_secs: self.request_timeout_secs,
        }
    }
}

/// The headers that every request carries.
pub open spec fn default_headers() -> Seq<(Seq<char>, Seq<char>)> {
    put_header(
        put_header(Seq::empty(), "client"@, "codex-cli"@),
        "client-version"@,
        "0"@,
    )
}

/// The headers that every request carries.
pub fn default_extra_headers() -> (r: Headers)
    ensures
        r@ == default_headers(),
{
    let mut headers = Headers::new();
    headers.put("client".to_owned(), "codex-cli".to_owned());
    headers.put("client-version".to_owned(), "0".to_owned());
    headers
}

/// The instructions to the agent, where nothing else is configured.
pub fn default_agent_system_prompt() -> (r: &'static str)
    ensures
        r@ == DEFAULT_AGENT_SYSTEM_PROMPT@,
{
    DEFAULT_AGENT_SYSTEM_PROMPT
}

/// The address to listen on: what is given has to be a socket address.
pub open spec fn listen_addr_of(value: Option<Seq<char>>) -> Result<Seq<char>, Seq<char>> {
    match value {
        Some(address) => if socket_address(address) {
            Ok(address)
        } else {
            Err("invalid socket address syntax"@)
        },
        None => Ok("127.0.0.1:1337"@),
    }
}

/// The address to listen on, or why what is given is none.
pub fn listen_address(value: Option<&str>) -> (r: Result<String, String>)
    ensures
        res_view(r) == listen_addr_of(opt_view(value)),
{
    match value {
        Some(address) => if is_socket_address(address) {
            Ok(address.to_owned())
        } else {
            Err("invalid socket address syntax".to_owned())
        },
        None => Ok("127.0.0.1:1337".to_owned()),
    }
}

/// The protocol of the backend: what the environment says has to be known; what a file says counts
/// where it is known.
pub open spec fn wire_api_of(
    env: Option<Seq<char>>,
    file: Option<Seq<char>>,
    codex: Option<WireApi>,
) -> Result<WireApi, Seq<char>> {
    match nonempty(env) {
        Some(value) => match wire_api_named(value) {
            Some(api) => Ok(api),
            None => Err("unsupported BYOB_WIRE_API `"@ + value + "`"@),
        },
        None => match (
            match file {
                Some(value) => wire_api_named(value),
                None => None,
            },
            codex,
        ) {
            (Some(api), _) => Ok(api),
            (None, Some(api)) => Ok(api),
            (None, None) => Ok(WireApi::Responses),
        },
    }
}

/// The protocol of the backend.
fn resolve_wire_api(env: Option<&str>, file: Option<&str>, codex: Option<WireApi>) -> (r: Result<
    WireApi,
    String,
>)
    ensures
        r matches Ok(api) ==> wire_api_of(opt_view(env), opt_view(file), codex) == Ok::<
            WireApi,
            Seq<char>,
        >(api),
        r matches Err(message) ==> wire_api_of(opt_view(env), opt_view(file), codex) == Err::<
            WireApi,
            Seq<char>,
        >(message@),
{
    match nonempty_string(env) {
        Some(value) => match WireApi::parse(value.as_str()) {
            Some(api) => Ok(api),
            None => {
                let mut message = "unsupported BYOB_WIRE_API `".to_owned();
                message.append(value.as_str());
                message.append("`");
                Err(message)
            },
        },
        None => {
            let file = match file {
                Some(value) => WireApi::parse(value),
                None => None,
            };
            match (file, codex) {
                (Some(api), _) => Ok(api),
                (None, Some(api)) => Ok(api),
                (None, None) => Ok(WireApi::Responses),
            }
        },
    }
}

/// The configuration in force, or why there is none.
pub open spec fn config_of(
    env: EnvValuesView,
    file: ByobConfigFileView,
    codex: CodexBackendConfigView,
    extra: Option<Result<Seq<(Seq<char>, Seq<char>)>, Seq<char>>>,
) -> Result<ConfigView, Seq<char>> {
    match (
        listen_addr_of(env.listen),
        wire_api_of(env.wire_api, file.wire_api, codex.wire_api),
    ) {
        (Err(message), _) => Err(message),
        (Ok(_), Err(message)) => Err(message),
        (Ok(listen_addr), Ok(wire_api)) => {
            let headers = put_headers(
                put_headers(default_headers(), codex.http_headers),
                file.extra_headers,
            );
            match extra {
                Some(Err(message)) => Err(message),
                _ => Ok(
                    ConfigView {
                        listen_addr,
                        openai_base_url: trim_end_of(
                            match or_else(
                                or_else(
                                    nonempty(env.openai_base_url),
                                    nonempty(file.openai_base_url),
                                ),
                                codex.base_url,
                            ) {
                                Some(url) => url,
                                None => DEFAULT_OCA_BASE_URL@,
                            },
                            CharClass::Is('/'),
                        ),
                        backend_url_override: or_else(
                            nonempty(env.backend_url),
                            nonempty(file.backend_url_override),
                        ),
                        openai_api_key: or_else(
                            or_else(nonempty(env.openai_api_key), nonempty(file.openai_api_key)),
                            codex.api_key,
                        ),
                        model_override: Some(
                            match or_else(
                                or_else(nonempty(env.model), nonempty(file.model)),
                                codex.model,
                            ) {
                                Some(model) => model,
                                None => DEFAULT_MODEL@,
                            },
                        ),
                        wire_api,
                        extra_headers: match extra {
                            Some(Ok(more)) => put_headers(headers, more),
                            _ => headers,
                        },
                        system_prompt: match env.system_prompt {
                            Some(prompt) => prompt,
                            None => DEFAULT_AGENT_SYSTEM_PROMPT@,
                        },
                        request_timeout_secs: match env.request_timeout_secs {
                            Some(value) => match parsed_u64(value) {
                                Some(seconds) => seconds,
                                None => 600,
                            },
                            None => 600,
                        },
                    },
                ),
            }
        },
    }
}

/// The headers that the environment gives in JSON, where it gives any.
pub open spec fn env_headers(value: Option<Seq<char>>) -> Option<
    Result<Seq<(Seq<char>, Seq<char>)>, Seq<char>>,
> {
    match nonempty(value) {
        Some(text) => Some(extra_headers(json_reading(text))),
        None => None,
    }
}

/// The view of an optional result.
pub open spec fn opt_res_view(value: Option<Result<Headers, String>>) -> Option<
    Result<Seq<(Seq<char>, Seq<char>)>, Seq<char>>,
> {
    match value {
        Some(result) => Some(res_view(result)),
        None => None,
    }
}

impl Config {
    /// The configuration in force, given the headers of the environment.
    pub fn from_parts(
        env: &EnvValues,
        file: &ByobConfigFile,
        codex: CodexBackendConfig,
        extra: Option<Result<Headers, String>>,
    ) -> (r: Result<Config, String>)
        ensures
            res_view(r) == config_of(env@, file@, codex@, opt_res_view(extra)),
    {
        let listen_addr = match listen_address(borrowed(&env.listen)) {
            Ok(address) => address,
            Err(message) => {
                return Err(message);
            },
        };
        let base_url = first_text(
            first_text(
                nonempty_string(borrowed(&env.openai_base_url)),
                nonempty_string(borrowed(&file.openai_base_url)),
            ),
            codex.base_url,
        );
        let base_url = match base_url {
            Some(url) => url,
            None => DEFAULT_OCA_BASE_URL.to_owned(),
        };
        let openai_base_url = trim_end_class(base_url.as_str(), CharClass::Is('/')).to_owned();
        let backend_url_override = first_text(
            nonempty_string(borrowed(&env.backend_url)),
            nonempty_string(borrowed(&file.backend_url_override)),
        );
        let openai_api_key = first_text(
            first_text(
                nonempty_string(borrowed(&env.openai_api_key)),
                nonempty_string(borrowed(&file.openai_api_key)),
            ),
            codex.api_key,
        );
        let model = first_text(
            first_text(
                nonempty_string(borrowed(&env.model)),
                nonempty_string(borrowed(&file.model)),
            ),
            codex.model,
        );
        let model_override = match model {
            Some(model) => Some(model),
            None => Some(DEFAULT_MODEL.to_owned()),
        };
        let wire_api = match resolve_wire_api(
            borrowed(&env.wire_api),
            borrowed(&file.wire_api),
            codex.wire_api,
        ) {
            Ok(api) => api,
            Err(message) => {
                return Err(message);
            },
        };
        let mut extra_headers = default_extra_headers();
        extra_headers.put_all(&codex.http_headers);
        extra_headers.put_all(&file.extra_headers);
        match extra {
            Some(Ok(more)) => {
                extra_headers.put_all(&more);
            },
            Some(Err(message)) => {
                return Err(message);
            },
            None => {},
        }
        let system_prompt = match &env.system_prompt {
            Some(prompt) => prompt.clone(),
            None => default_agent_system_prompt().to_owned(),
        };
        let request_timeout_secs: u64 = match &env.request_timeout_secs {
            Some(value) => match parse_u64(value.as_str()) {
                Some(seconds) => seconds,
                None => 600,
            },
            None => 600,
        };
        Ok(
            Config {
                listen_addr,
                openai_base_url,
                backend_url_override,
                openai_api_key,
                model_override,
                wire_api,
                extra_headers,
                system_prompt,
                request_timeout_secs,
            },
        )
    }

    /// The configuration in force.
    pub fn from_env(
        env: &EnvValues,
        file: &ByobConfigFile,
        codex: CodexBackendConfig,
    ) -> (r: Result<
        Config,
        String,
    >)
        ensures
            res_view(r) == config_of(env@, file@, codex@, env_headers(env@.extra_headers_json)),
    {
        let extra = match nonempty_string(borrowed(&env.extra_headers_json)) {
            Some(text) => Some(parse_extra_headers_json(text.as_str())),
            None => None,
        };
        Config::from_parts(env, file, codex, extra)
    }
}

/// The address of the machine itself with a port of the proxy's own is a socket address.
proof fn lemma_default_address()
    ensures
        socket_address("127.0.0.1:1337"@),
{
    reveal_strlit("127.0.0.1:1337");
    reveal_strlit("[");
    reveal_strlit(":");
    let s = "127.0.0.1:1337"@;
    let host = seq!['1', '2', '7', '.', '0', '.', '0', '.', '1'];
    assert(s.take(1)[0] == '1');
    assert(stands_at(s, ":"@, 9)) by {
        assert(s.subrange(9, 10) =~= ":"@);
    }
    lemma_found(s, ":"@);
    assert forall|j: int| 0 <= j < 9 implies !#[trigger] stands_at(s, ":"@, j) by {
        assert(s.subrange(j, j + 1)[0] == s[j]);
    }
    let i = found(s, ":"@)->0;
    assert(i == 9) by {
        assert(stands_at(s, ":"@, i));
        if i > 9 {
            assert(!stands_at(s, ":"@, 9));
        }
    }
    assert(s.take(9) =~= host);
    let port = seq!['1', '3', '3', '7'];
    assert(s.skip(9).take(1) =~= ":"@);
    assert(s.skip(9).skip(1) =~= port);
    reveal_with_fuel(number_of, 5);
    assert(port.drop_last() =~= seq!['1', '3', '3']);
    assert(port.drop_last().drop_last() =~= seq!['1', '3']);
    assert(port.drop_last().drop_last().drop_last() =~= seq!['1']);
    reveal_with_fuel(first_of, 5);
    reveal_with_fuel(pieces_of, 5);
    let point = CharClass::Is('.');
    assert(first_of(host, point) == Some(3int)) by {
        assert(host.skip(1).skip(1).skip(1)[0] == '.');
    }
    assert(host.take(3) =~= seq!['1', '2', '7']);
    assert(host.skip(4) =~= seq!['0', '.', '0', '.', '1']);
    assert(host.skip(4).take(1) =~= seq!['0']);
    assert(host.skip(4).skip(2) =~= seq!['0', '.', '1']);
    assert(host.skip(4).skip(2).take(1) =~= seq!['0']);
    assert(host.skip(4).skip(2).skip(2) =~= seq!['1']);
    assert(seq!['1', '2', '7'].drop_last() =~= seq!['1', '2']);
    assert(seq!['1', '2'].drop_last() =~= seq!['1']);
    assert(pieces_of(host, point) =~= seq![seq!['1', '2', '7'], seq!['0'], seq!['0'], seq!['1']]);
}

/// The proxy listens on a socket address, whatever is configured.
pub proof fn lemma_listens_on_an_address(
    env: EnvValuesView,
    file: ByobConfigFileView,
    codex: CodexBackendConfigView,
    extra: Option<Result<Seq<(Seq<char>, Seq<char>)>, Seq<char>>>,
)
    ensures
        config_of(env, file, codex, extra) matches Ok(config) ==> socket_address(
            config.listen_addr,
        ),
{
    lemma_default_address();
}

/// What the environment says counts before the file, and the file before the Codex CLI.
pub proof fn lemma_environment_comes_first(
    env: EnvValuesView,
    file: ByobConfigFileView,
    codex: CodexBackendConfigView,
    extra: Option<Result<Seq<(Seq<char>, Seq<char>)>, Seq<char>>>,
)
    requires
        config_of(env, file, codex, extra) is Ok,
    ensures
        config_of(env, file, codex, extra) matches Ok(config) && {
            &&& nonempty(env.openai_api_key) is Some ==> config.openai_api_key == nonempty(
                env.openai_api_key,
            )
            &&& nonempty(env.openai_api_key) is None && nonempty(file.openai_api_key) is Some
                ==> config.openai_api_key == nonempty(file.openai_api_key)
            &&& nonempty(env.openai_api_key) is None && nonempty(file.openai_api_key) is None
                ==> config.openai_api_key == codex.api_key
            &&& nonempty(env.model) is Some ==> config.model_override == nonempty(env.model)
            &&& nonempty(env.model) is None && nonempty(file.model) is Some
                ==> config.model_override == nonempty(file.model)
            &&& nonempty(env.backend_url) is Some ==> config.backend_url_override == nonempty(
                env.backend_url,
            )
            &&& nonempty(env.wire_api) matches Some(name) ==> wire_api_named(name) == Some(
                config.wire_api,
            )
            &&& nonempty(env.openai_base_url) matches Some(url) ==> config.openai_base_url
                == trim_end_of(url, CharClass::Is('/'))
        },
{
}

/// Where nothing is configured, the backend is Oracle Code Assist, asked for responses of the model
/// that it has by default, and there is no key.
pub proof fn lemma_defaults(env: EnvValuesView)
    requires
        env == (EnvValuesView {
            listen: None,
            openai_base_url: None,
            backend_url: None,
            openai_api_key: None,
            model: None,
            wire_api: None,
            extra_headers_json: None,
            system_prompt: None,
            request_timeout_secs: None,
        }),
    ensures
        config_of(env, no_byob_config(), no_codex_config(), None) matches Ok(config) && {
            &&& config.listen_addr == "127.0.0.1:1337"@
            &&& config.openai_base_url == DEFAULT_OCA_BASE_URL@
            &&& config.backend_url_override is None
            &&& config.openai_api_key is None
            &&& config.model_override == Some(DEFAULT_MODEL@)
            &&& config.wire_api == WireApi::Responses
            &&& config.extra_headers == default_headers()
            &&& config.system_prompt == DEFAULT_AGENT_SYSTEM_PROMPT@
            &&& config.request_timeout_secs == 600
        },
{
    reveal_strlit(
        "https://code-internal.aiservice.us-chicago-1.oci.oraclecloud.com/20250206/app/litellm",
    );
}

/// The headers of the environment count before those of the file, those before the ones of the
/// Codex CLI, and those before the ones that every request carries.
pub proof fn lemma_headers_of_environment_come_first(
    env: EnvValuesView,
    file: ByobConfigFileView,
    codex: CodexBackendConfigView,
    more: Seq<(Seq<char>, Seq<char>)>,
    name: Seq<char>,
)
    requires
        config_of(env, file, codex, Some(Ok(more))) is Ok,
    ensures
        config_of(env, file, codex, Some(Ok(more))) matches Ok(config) && header_value(
            config.extra_headers,
            name,
        ) == or_else(
            last_value(more, name),
            or_else(
                last_value(file.extra_headers, name),
                or_else(
                    last_value(codex.http_headers, name),
                    header_value(default_headers(), name),
                ),
            ),
        ),
{
    let first = put_headers(default_headers(), codex.http_headers);
    let second = put_headers(first, file.extra_headers);
    lemma_put_headers_reads_back(default_headers(), codex.http_headers, name);
    lemma_put_headers_reads_back(first, file.extra_headers, name);
    lemma_put_headers_reads_back(second, more, name);
}

// ---------------------------------------------------------------------------------------------
// Where each setting comes from
// ---------------------------------------------------------------------------------------------
/// Whether a setting is left open: it is not given, or nothing but white space.
pub open spec fn left_open(value: Option<Seq<char>>) -> bool {
    match value {
        Some(text) => blank(text),
        None => true,
    }
}

/// Whether an address is another one without the slashes at its end.
pub open spec fn without_end_slashes(url: Seq<char>, short: Seq<char>) -> bool {
    &&& short.len() <= url.len()
    &&& url.take(short.len() as int) == short
    &&& forall|i: int| short.len() <= i < url.len() ==> #[trigger] url[i] == '/'
    &&& short.len() > 0 ==> short.last() != '/'
}

proof fn lemma_end_slashes(url: Seq<char>)
    ensures
        without_end_slashes(url, trim_end_of(url, CharClass::Is('/'))),
    decreases url.len(),
{
    let short = trim_end_of(url, CharClass::Is('/'));
    if url.len() > 0 && url.last() == '/' {
        lemma_end_slashes(url.drop_last());
        assert(url.take(short.len() as int) =~= url.drop_last().take(short.len() as int));
        assert forall|i: int| short.len() <= i < url.len() implies #[trigger] url[i] == '/' by {
            if i < url.len() - 1 {
                assert(url.drop_last()[i] == '/');
            }
        }
    } else {
        assert(url.take(url.len() as int) =~= url);
    }
}

/// The backend is the one that the environment names, else the one that the file names, else the
/// one of the provider in use of the Codex CLI, and only else Oracle Code Assist; its address is
/// taken without slashes at its end.
pub proof fn lemma_which_backend(
    env: EnvValuesView,
    file: ByobConfigFileView,
    codex: CodexBackendConfigView,
    extra: Option<Result<Seq<(Seq<char>, Seq<char>)>, Seq<char>>>,
)
    ensures
        config_of(env, file, codex, extra) matches Ok(config) ==> {
            &&& !left_open(env.openai_base_url) ==> without_end_slashes(
                trimmed(env.openai_base_url->0),
                config.openai_base_url,
            )
            &&& left_open(env.openai_base_url) && !left_open(file.openai_base_url)
                ==> without_end_slashes(
                trimmed(file.openai_base_url->0),
                config.openai_base_url,
            )
            &&& left_open(env.openai_base_url) && left_open(file.openai_base_url)
                && codex.base_url is Some ==> without_end_slashes(
                codex.base_url->0,
                config.openai_base_url,
            )
            &&& left_open(env.openai_base_url) && left_open(file.openai_base_url)
                && codex.base_url is None ==> without_end_slashes(
                "https://code-internal.aiservice.us-chicago-1.oci.oraclecloud.com/20250206/app/litellm"@,
                config.openai_base_url,
            )
            &&& !left_open(env.backend_url) ==> config.backend_url_override == Some(
                trimmed(env.backend_url->0),
            )
            &&& left_open(env.backend_url) && !left_open(file.backend_url_override)
                ==> config.backend_url_override == Some(trimmed(file.backend_url_override->0))
            &&& left_open(env.backend_url) && left_open(file.backend_url_override)
                ==> config.backend_url_override is None
        },
{
    lemma_end_slashes(trimmed(env.openai_base_url->0));
    lemma_end_slashes(trimmed(file.openai_base_url->0));
    lemma_end_slashes(codex.base_url->0);
    lemma_end_slashes(
        "https://code-internal.aiservice.us-chicago-1.oci.oraclecloud.com/20250206/app/litellm"@,
    );
}

/// The key is the one of the environment, else that of the file, else that of the Codex CLI, and
/// there is none where none of them has one.
pub proof fn lemma_which_key(
    env: EnvValuesView,
    file: ByobConfigFileView,
    codex: CodexBackendConfigView,
    extra: Option<Result<Seq<(Seq<char>, Seq<char>)>, Seq<char>>>,
)
    ensures
        config_of(env, file, codex, extra) matches Ok(config) ==> {
            &&& !left_open(env.openai_api_key) ==> config.openai_api_key == Some(
                trimmed(env.openai_api_key->0),
            )
            &&& left_open(env.openai_api_key) && !left_open(file.openai_api_key)
                ==> config.openai_api_key == Some(trimmed(file.openai_api_key->0))
            &&& left_open(env.openai_api_key) && left_open(file.openai_api_key)
                ==> config.openai_api_key == codex.api_key
        },
{
}

/// The model is the one of the environment, else that of the file, else that of the Codex CLI, and
/// only else the default one.
pub proof fn lemma_which_model(
    env: EnvValuesView,
    file: ByobConfigFileView,
    codex: CodexBackendConfigView,
    extra: Option<Result<Seq<(Seq<char>, Seq<char>)>, Seq<char>>>,
)
    ensures
        config_of(env, file, codex, extra) matches Ok(config) ==> {
            &&& !left_open(env.model) ==> config.model_override == Some(trimmed(env.model->0))
            &&& left_open(env.model) && !left_open(file.model) ==> config.model_override == Some(
                trimmed(file.model->0),
            )
            &&& left_open(env.model) && left_open(file.model) && codex.model is Some
                ==> config.model_override == codex.model
            &&& left_open(env.model) && left_open(file.model) && codex.model is None
                ==> config.model_override == Some("gpt-5.5"@)
        },
{
}

/// The protocol is the one that the environment names, else a known one that the file names, else
/// that of the provider of the Codex CLI, and only else the one of responses. A name in the
/// environment that is not known is refused.
pub proof fn lemma_which_protocol(
    env: EnvValuesView,
    file: ByobConfigFileView,
    codex: CodexBackendConfigView,
    extra: Option<Result<Seq<(Seq<char>, Seq<char>)>, Seq<char>>>,
)
    ensures
        !left_open(env.wire_api) && wire_api_named(trimmed(env.wire_api->0)) is None ==> config_of(
            env,
            file,
            codex,
            extra,
        ) is Err,
        config_of(env, file, codex, extra) matches Ok(config) ==> {
            &&& !left_open(env.wire_api) ==> wire_api_named(trimmed(env.wire_api->0)) == Some(
                config.wire_api,
            )
            &&& left_open(env.wire_api) && file.wire_api is Some && wire_api_named(
                file.wire_api->0,
            ) is Some ==> wire_api_named(file.wire_api->0) == Some(config.wire_api)
            &&& left_open(env.wire_api) && (file.wire_api is None || wire_api_named(
                file.wire_api->0,
            ) is None) && codex.wire_api is Some ==> codex.wire_api == Some(config.wire_api)
            &&& left_open(env.wire_api) && (file.wire_api is None || wire_api_named(
                file.wire_api->0,
            ) is None) && codex.wire_api is None ==> config.wire_api == WireApi::Responses
        },
{
}

/// The protocols have these names, in any case of the letters and with white space around them.
pub proof fn lemma_names_of_protocols(name: Seq<char>)
    ensures
        wire_api_named(name) == Some(WireApi::Responses) <==> (lowered(trimmed(name))
            == "responses"@ || lowered(trimmed(name)) == "openai_responses"@ || lowered(
            trimmed(name),
        ) == "responses_api"@),
        wire_api_named(name) == Some(WireApi::ChatCompletions) <==> (lowered(trimmed(name))
            == "chat"@ || lowered(trimmed(name)) == "chat_completions"@ || lowered(trimmed(name))
            == "chat-completions"@ || lowered(trimmed(name)) == "openai_chat"@),
        WireApi::Responses.name() == "responses"@,
        WireApi::ChatCompletions.name() == "chat_completions"@,
        WireApi::Responses.path() == "responses"@,
        WireApi::ChatCompletions.path() == "chat/completions"@,
{
    reveal_strlit("responses");
    reveal_strlit("openai_responses");
    reveal_strlit("responses_api");
    reveal_strlit("chat");
    reveal_strlit("chat_completions");
    reveal_strlit("chat-completions");
    reveal_strlit("openai_chat");
    assert("responses"@.len() != "chat"@.len());
    assert("responses"@.len() != "chat_completions"@.len());
    assert("responses"@.len() != "chat-completions"@.len());
    assert("responses"@.len() != "openai_chat"@.len());
    assert("openai_responses"@.len() != "chat"@.len());
    assert("openai_responses"@[0] != "chat_completions"@[0]);
    assert("openai_responses"@[0] != "chat-completions"@[0]);
    assert("openai_responses"@.len() != "openai_chat"@.len());
    assert("responses_api"@.len() != "chat"@.len());
    assert("responses_api"@.len() != "chat_completions"@.len());
    assert("responses_api"@.len() != "chat-completions"@.len());
    assert("responses_api"@.len() != "openai_chat"@.len());
}

/// What else the environment says: the instructions to the agent as they are, also where they are
/// empty, and the seconds that a request may take, which are 600 where no number is given.
pub proof fn lemma_prompt_and_patience(
    env: EnvValuesView,
    file: ByobConfigFileView,
    codex: CodexBackendConfigView,
    extra: Option<Result<Seq<(Seq<char>, Seq<char>)>, Seq<char>>>,
)
    ensures
        config_of(env, file, codex, extra) matches Ok(config) ==> {
            &&& env.system_prompt is Some ==> Some(config.system_prompt) == env.system_prompt
            &&& env.system_prompt is None ==> config.system_prompt == DEFAULT_AGENT_SYSTEM_PROMPT@
            &&& env.request_timeout_secs is None ==> config.request_timeout_secs == 600
            &&& env.request_timeout_secs is Some && all_digits(env.request_timeout_secs->0)
                && number_of(env.request_timeout_secs->0) <= u64::MAX
                ==> config.request_timeout_secs == number_of(env.request_timeout_secs->0)
            &&& env.request_timeout_secs is Some && parsed_u64(env.request_timeout_secs->0) is None
                ==> config.request_timeout_secs == 600
            &&& env.listen is Some ==> Some(config.listen_addr) == env.listen
            &&& env.listen is None ==> config.listen_addr == "127.0.0.1:1337"@
        },
        config_of(env, file, codex, extra) is Err ==> (env.listen is Some && !socket_address(
            env.listen->0,
        )) || (!left_open(env.wire_api) && wire_api_named(trimmed(env.wire_api->0)) is None) || (
        extra is Some && extra->0 is Err),
        extra is Some && extra->0 is Err ==> config_of(env, file, codex, extra) is Err,
        env.listen is Some && !socket_address(env.listen->0) ==> config_of(
            env,
            file,
            codex,
            extra,
        ) is Err,
{
    if env.request_timeout_secs is Some && all_digits(env.request_timeout_secs->0) {
        let text = env.request_timeout_secs->0;
        assert('0' <= text[0] <= '9');
    }
}

/// Every request carries the headers of the default, unless another place gives them another value,
/// and all headers that the file and the Codex CLI give.
pub proof fn lemma_which_headers(
    env: EnvValuesView,
    file: ByobConfigFileView,
    codex: CodexBackendConfigView,
    name: Seq<char>,
)
    ensures
        config_of(env, file, codex, None) matches Ok(config) ==> {
            &&& last_value(file.extra_headers, name) is Some ==> header_value(
                config.extra_headers,
                name,
            ) == last_value(file.extra_headers, name)
            &&& last_value(file.extra_headers, name) is None && last_value(
                codex.http_headers,
                name,
            ) is Some ==> header_value(config.extra_headers, name) == last_value(
                codex.http_headers,
                name,
            )
            &&& last_value(file.extra_headers, name) is None && last_value(
                codex.http_headers,
                name,
            ) is None ==> header_value(config.extra_headers, name) == if name == "client"@ {
                Some("codex-cli"@)
            } else if name == "client-version"@ {
                Some("0"@)
            } else {
                None
            }
        },
{
    reveal_strlit("client");
    reveal_strlit("client-version");
    assert("client"@.len() != "client-version"@.len());
    let first = put_headers(default_headers(), codex.http_headers);
    lemma_put_headers_reads_back(default_headers(), codex.http_headers, name);
    lemma_put_headers_reads_back(first, file.extra_headers, name);
    let one = put_header(Seq::empty(), "client"@, "codex-cli"@);
    lemma_put_header_reads_back(Seq::empty(), "client"@, "codex-cli"@, name);
    lemma_put_header_reads_back(one, "client-version"@, "0"@, name);
}

/// The headers that a JSON object gives are its members, each under its name; it is refused where
/// one of them is no text, and so is what is no object.
pub proof fn lemma_headers_in_json(
    members: Seq<(Seq<char>, JsonView)>,
    name: Seq<char>,
    value: JsonView,
    other: Seq<char>,
)
    ensures
        headers_of_members(Seq::empty()) == Ok::<Seq<(Seq<char>, Seq<char>)>, Seq<char>>(
            Seq::empty(),
        ),
        headers_of_members(members) is Ok && value is Str ==> (headers_of_members(
            members.push((name, value)),
        ) matches Ok(headers) && header_value(headers, name) == value.as_str() && (other != name
            ==> header_value(headers, other) == header_value(
            headers_of_members(members)->Ok_0,
            other,
        ))),
        !(value is Str) ==> headers_of_members(members.push((name, value))) is Err,
        headers_of_members(members) is Err ==> headers_of_members(
            members.push((name, value)),
        ) is Err,
        extra_headers(Ok(JsonView::Object(members))) is Ok <==> headers_of_members(members) is Ok,
        headers_of_members(members) is Ok ==> extra_headers(Ok(JsonView::Object(members)))
            == headers_of_members(members),
        !(value is Object) ==> extra_headers(Ok(value)) is Err,
{
    assert(members.push((name, value)).drop_last() =~= members);
    if headers_of_members(members) is Ok && value is Str {
        lemma_put_header_reads_back(
            headers_of_members(members)->Ok_0,
            name,
            value.as_str()->0,
            other,
        );
    }
}

/// The provider in use of the Codex CLI says where the backend is: the provider that the profile in
/// use names, and else the one that the configuration names.
pub proof fn lemma_codex_provider(doc: TomlView, name: Seq<char>, provider: TomlView)
    requires
        doc.get("model_providers"@) matches Some(providers) && providers.get(name) == Some(
            provider,
        ),
        provider is Table,
        (doc.get("profile"@) is None && doc.get("model_provider"@) == Some(TomlView::Str(name)))
            || (codex_profile(doc) matches Some(profile) && profile.get("model_provider"@) == Some(
            TomlView::Str(name),
        )),
    ensures
        codex_config(doc).base_url == provider.get_str("base_url"@),
        provider.get_str("wire_api"@) matches Some(api) ==> codex_config(doc).wire_api
            == wire_api_named(api),
        provider.get_str("wire_api"@) is None ==> codex_config(doc).wire_api is None,
        codex_profile(doc) is None && doc.get_str("model"@) is Some ==> codex_config(doc).model
            == doc.get_str("model"@),
        codex_profile(doc) is None && doc.get_str("model"@) is None ==> codex_config(doc).model
            == provider.get_str("model"@),
        provider.get("http_headers"@) matches Some(item) ==> codex_config(doc).http_headers
            == toml_headers(item),
        provider.get("http_headers"@) is None ==> codex_config(doc).http_headers == Seq::<
            (Seq<char>, Seq<char>),
        >::empty(),
        codex_config(doc).api_key is None,
{
}

/// The profile in use of the Codex CLI is the table of its name among the profiles; its model
/// counts before that of the configuration.
pub proof fn lemma_codex_profile(doc: TomlView, name: Seq<char>, profile: TomlView)
    requires
        doc.get("profile"@) == Some(TomlView::Str(name)),
        doc.get("profiles"@) matches Some(profiles) && profiles.get(name) == Some(profile),
        profile is Table,
    ensures
        codex_profile(doc) == Some(profile),
        profile.get_str("model"@) is Some ==> codex_config(doc).model == profile.get_str("model"@),
        profile.get_str("model"@) is None && doc.get_str("model"@) is Some ==> codex_config(
            doc,
        ).model == doc.get_str("model"@),
        profile.get_str("model_provider"@) is Some ==> codex_provider(doc) == profile.get_str(
            "model_provider"@,
        ),
        profile.get_str("model_provider"@) is None ==> codex_provider(doc) == doc.get_str(
            "model_provider"@,
        ),
{
}

/// The key of the Codex CLI is the one of its file of credentials, and the rest is in its
/// configuration; a file that cannot be read says nothing.
pub proof fn lemma_codex_files(config: Seq<char>, auth: Seq<char>)
    ensures
        toml_reading(config) matches Ok(doc) ==> codex_backend(Some(config), None) == codex_config(
            doc,
        ),
        toml_reading(config) is Err ==> codex_backend(Some(config), None) == codex_backend(
            None,
            None,
        ),
        toml_reading(config) matches Ok(doc) ==> ({
            let both = codex_backend(Some(config), Some(auth));
            &&& both.base_url == codex_config(doc).base_url
            &&& both.model == codex_config(doc).model
            &&& both.wire_api == codex_config(doc).wire_api
            &&& both.http_headers == codex_config(doc).http_headers
        }),
        json_reading(auth) is Err ==> codex_backend(None, Some(auth)).api_key is None,
        json_reading(auth) matches Ok(json) ==> (json.get("OPENAI_API_KEY"@) matches Some(
            JsonView::Str(key),
        ) ==> (!blank(key) ==> codex_backend(None, Some(auth)).api_key == Some(trimmed(key)))),
        json_reading(auth) matches Ok(json) ==> (left_open(json.get_str("OPENAI_API_KEY"@))
            ==> codex_backend(None, Some(auth)).api_key is None),
        codex_backend(None, None).base_url is None,
        codex_backend(None, None).model is None,
        codex_backend(None, None).wire_api is None,
        codex_backend(None, None).api_key is None,
        codex_backend(None, None).http_headers.len() == 0,
{
}

/// What the file of the proxy says is what its members say, under the names that they have or under
/// the shorter ones; a file that cannot be read, or that does not fit, says nothing.
pub proof fn lemma_file_of_the_proxy(text: Seq<char>, json: JsonView)
    requires
        json_reading(text) == Ok::<JsonView, Seq<char>>(json),
        json is Object,
        byob_config(json) is Some,
    ensures
        ({
            let file = byob_config_in(Some(text));
            &&& json.get_str("openai_base_url"@) is Some ==> file.openai_base_url == json.get_str(
                "openai_base_url"@,
            )
            &&& json.get_str("base_url"@) is Some ==> file.openai_base_url == json.get_str(
                "base_url"@,
            )
            &&& json.get_str("backend_url_override"@) is Some ==> file.backend_url_override
                == json.get_str("backend_url_override"@)
            &&& json.get_str("backend_url"@) is Some ==> file.backend_url_override == json.get_str(
                "backend_url"@,
            )
            &&& json.get_str("openai_api_key"@) is Some ==> file.openai_api_key == json.get_str(
                "openai_api_key"@,
            )
            &&& json.get_str("api_key"@) is Some ==> file.openai_api_key == json.get_str("api_key"@)
            &&& file.model == json.get_str("model"@)
            &&& file.wire_api == json.get_str("wire_api"@)
            &&& json.get("extra_headers"@) is None && json.get("http_headers"@) is None
                ==> file.extra_headers.len() == 0
            &&& json.get("extra_headers"@) is Some && json.get("extra_headers"@)->0 is Object
                ==> headers_of_members(json.get("extra_headers"@)->0->Object_0) == Ok::<
                Seq<(Seq<char>, Seq<char>)>,
                Seq<char>,
            >(file.extra_headers)
        }),
{
}

/// A file that cannot be read says nothing.
pub proof fn lemma_unreadable_file_says_nothing(text: Seq<char>)
    ensures
        json_reading(text) is Err ==> byob_config_in(Some(text)) == byob_config_in(None),
        ({
            let file = byob_config_in(None);
            &&& file.openai_base_url is None
            &&& file.backend_url_override is None
            &&& file.openai_api_key is None
            &&& file.model is None
            &&& file.wire_api is None
            &&& file.extra_headers.len() == 0
        }),
{
}

/// The strings among the entries of a table are headers under their names; other entries are none.
pub proof fn lemma_headers_in_toml(
    entries: Seq<(Seq<char>, Option<Seq<char>>)>,
    name: Seq<char>,
    value: Option<Seq<char>>,
    other: Seq<char>,
)
    ensures
        toml_headers(TomlView::Inline(Seq::empty())) == Seq::<(Seq<char>, Seq<char>)>::empty(),
        value is Some ==> header_value(
            toml_headers(TomlView::Inline(entries.push((name, value)))),
            name,
        ) == value,
        other != name || value is None ==> header_value(
            toml_headers(TomlView::Inline(entries.push((name, value)))),
            other,
        ) == header_value(toml_headers(TomlView::Inline(entries)), other),
{
    assert(entries.push((name, value)).drop_last() =~= entries);
    if value is Some {
        lemma_put_header_reads_back(headers_of_entries(entries), name, value->0, other);
    }
}

/// A table gives the same headers as a table within a line with the same entries.
pub proof fn lemma_headers_in_tables(entries: Seq<(Seq<char>, TomlView)>)
    ensures
        toml_headers(TomlView::Table(entries)) == toml_headers(
            TomlView::Inline(
                Seq::new(
                    entries.len(),
                    |i: int|
                        (
                            entries[i].0,
                            match entries[i].1 {
                                TomlView::Str(text) => Some(text),
                                _ => None::<Seq<char>>,
                            },
                        ),
                ),
            ),
        ),
{
    assert(string_entries(entries) =~= Seq::new(
        entries.len(),
        |i: int|
            (
                entries[i].0,
                match entries[i].1 {
                    TomlView::Str(text) => Some(text),
                    _ => None::<Seq<char>>,
                },
            ),
    ));
}

/// Headers in the environment are read where there are any; a blank says nothing.
pub proof fn lemma_headers_in_environment(text: Seq<char>)
    ensures
        env_headers(None) is None,
        blank(text) ==> env_headers(Some(text)) is None,
        !blank(text) ==> env_headers(Some(text)) == Some(
            extra_headers(json_reading(trimmed(text))),
        ),
{
}

/// What is refused, and why: an address that is none, a protocol that is not known, headers that
/// are no object of texts.
pub proof fn lemma_what_is_refused(
    text: Seq<char>,
    file: Option<Seq<char>>,
    codex: Option<WireApi>,
    members: Seq<(Seq<char>, JsonView)>,
    name: Seq<char>,
    value: JsonView,
    other: JsonView,
)
    ensures
        !socket_address(text) ==> listen_addr_of(Some(text)) == Err::<Seq<char>, Seq<char>>(
            "invalid socket address syntax"@,
        ),
        !blank(text) && wire_api_named(trimmed(text)) is None ==> wire_api_of(
            Some(text),
            file,
            codex,
        ) == Err::<WireApi, Seq<char>>("unsupported BYOB_WIRE_API `"@ + trimmed(text) + "`"@),
        !(other is Object) ==> extra_headers(Ok(other)) == Err::<
            Seq<(Seq<char>, Seq<char>)>,
            Seq<char>,
        >("BYOB_EXTRA_HEADERS_JSON must be a JSON object"@),
        extra_headers(Ok(JsonView::Object(members))) is Ok && !(value is Str) ==> extra_headers(
            Ok(JsonView::Object(members.push((name, value)))),
        ) == Err::<Seq<(Seq<char>, Seq<char>)>, Seq<char>>(
            "BYOB_EXTRA_HEADERS_JSON value for `"@ + name + "` must be a string"@,
        ),
        extra_headers(Ok(JsonView::Object(members))) is Err ==> extra_headers(
            Ok(JsonView::Object(members.push((name, value)))),
        ) == extra_headers(Ok(JsonView::Object(members))),
        extra_headers(Err(text)) == Err::<Seq<(Seq<char>, Seq<char>)>, Seq<char>>(text),
{
    assert(members.push((name, value)).drop_last() =~= members);
}

/// A configuration file is taken where its fields are texts, none of them is given under two names,
/// and its headers are texts.
pub proof fn lemma_which_files_are_taken(json: JsonView)
    requires
        json is Object,
    ensures
        byob_config(json) is Some <==> {
            &&& text_if_any(json, "openai_base_url"@) && text_if_any(json, "base_url"@)
            &&& text_if_any(json, "backend_url_override"@) && text_if_any(json, "backend_url"@)
            &&& text_if_any(json, "openai_api_key"@) && text_if_any(json, "api_key"@)
            &&& json.get("openai_base_url"@) is None || json.get("base_url"@) is None
            &&& json.get("backend_url_override"@) is None || json.get("backend_url"@) is None
            &&& json.get("openai_api_key"@) is None || json.get("api_key"@) is None
            &&& text_if_any(json, "model"@)
            &&& text_if_any(json, "wire_api"@)
            &&& json.get("extra_headers"@) is None || json.get("http_headers"@) is None
            &&& json.get("extra_headers"@) matches Some(headers) ==> headers is Object
                && headers_of_members(headers->Object_0) is Ok
            &&& json.get("http_headers"@) matches Some(headers) ==> headers is Object
                && headers_of_members(headers->Object_0) is Ok
        },
        byob_config(json) matches Some(file) ==> (json.get("http_headers"@) matches Some(headers)
            ==> headers_of_members(headers->Object_0) == Ok::<
            Seq<(Seq<char>, Seq<char>)>,
            Seq<char>,
        >(file.extra_headers)),
{
}

/// Members that are texts are headers, each under its name; the first member that is none is named.
pub proof fn lemma_members_as_headers(
    members: Seq<(Seq<char>, JsonView)>,
    name: Seq<char>,
    value: Seq<char>,
    other: JsonView,
)
    requires
        !(other is Str),
    ensures
        headers_of_members(members) matches Ok(headers) ==> headers_of_members(
            members.push((name, JsonView::Str(value))),
        ) == Ok::<Seq<(Seq<char>, Seq<char>)>, Seq<char>>(put_header(headers, name, value)),
        headers_of_members(members) is Ok ==> headers_of_members(members.push((name, other)))
            == Err::<Seq<(Seq<char>, Seq<char>)>, Seq<char>>(name),
        headers_of_members(members) matches Err(first) ==> headers_of_members(
            members.push((name, other)),
        ) == Err::<Seq<(Seq<char>, Seq<char>)>, Seq<char>>(first),
        headers_of_members(Seq::empty()) == Ok::<Seq<(Seq<char>, Seq<char>)>, Seq<char>>(
            Seq::empty(),
        ),
{
    assert(members.push((name, JsonView::Str(value))).drop_last() =~= members);
    assert(members.push((name, other)).drop_last() =~= members);
}

} // verus!
