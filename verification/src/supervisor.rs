//! Keeping the proxy running: what the application that bundles it decides.
use crate::bytes::valid_text;
use crate::json::{json_reading, parse_json, Json, JsonView};
use crate::paths::{auth_hint, codex_auth_hint, Platform};
use crate::text::{blank, has_prefix, is_blank, opt_view, res_view, starts_with, views};
use vstd::prelude::*;
use vstd::utf8::{
    decode_utf8, encode_utf8, encode_utf8_decode_utf8, encode_utf8_valid_utf8, valid_utf8,
};

verus! {

/// The address on which the application has the proxy listen.
pub const PROXY_LISTEN: &'static str = "127.0.0.1:1337";

/// What is sent to the proxy to ask for its health.
pub const HEALTH_REQUEST: &'static str =
    "GET /healthz HTTP/1.1\r\nHost: 127.0.0.1\r\nConnection: close\r\n\r\n";

/// Whether the beginning of an answer says that the proxy is healthy: it is text, and a success.
pub open spec fn healthy(answer: Seq<u8>) -> bool {
    valid_utf8(answer) && has_prefix(decode_utf8(answer), "HTTP/1.1 200"@)
}

/// Whether the beginning of an answer says that the proxy is healthy.
pub fn is_healthy_response(answer: &Vec<u8>) -> (r: bool)
    ensures
        r == healthy(answer@),
{
    match valid_text(answer) {
        Some(text) => starts_with(text.as_str(), "HTTP/1.1 200"),
        None => false,
    }
}

// ---------------------------------------------------------------------------------------------
// Keys
// ---------------------------------------------------------------------------------------------
/// Whether a text is JSON with a string that is not blank under a key.
pub open spec fn has_key(parsed: Result<JsonView, Seq<char>>, key: Seq<char>) -> bool {
    parsed matches Ok(value) && value.get_str(key) matches Some(text) && !blank(text)
}

/// Whether a parsed text has a string that is not blank under a key.
pub fn json_has_key(parsed: &Result<Json, String>, key: &str) -> (r: bool)
    ensures
        r == has_key(res_view(*parsed), key@),
{
    match parsed {
        Ok(value) => match value.get_str(key) {
            Some(text) => !is_blank(text),
            None => false,
        },
        Err(_) => false,
    }
}

/// Whether the contents of a file that could be read have a string that is not blank under a key.
pub open spec fn file_has_key(contents: Option<Seq<char>>, key: Seq<char>) -> bool {
    contents matches Some(text) && has_key(json_reading(text), key)
}

/// Whether the contents of a file that could be read have a string that is not blank under a key.
pub fn json_file_has_key(contents: Option<&str>, key: &str) -> (r: bool)
    ensures
        r == file_has_key(opt_view(contents), key@),
{
    match contents {
        Some(text) => json_has_key(&parse_json(text), key),
        None => false,
    }
}

/// Whether a key for the backend is at hand: in the environment, in the configuration, or in the
/// authentication of the Codex CLI.
pub open spec fn key_at_hand(
    env_key: Option<Seq<char>>,
    config: Option<Seq<char>>,
    auth: Option<Seq<char>>,
) -> bool {
    ||| env_key matches Some(key) && !blank(key)
    ||| file_has_key(config, "openai_api_key"@)
    ||| file_has_key(auth, "OPENAI_API_KEY"@)
}

/// The warning that no key is at hand.
pub open spec fn no_key_warning(platform: Platform) -> Seq<char> {
    "WarpOCA did not find Codex CLI auth at "@ + auth_hint(platform)
        + ". Run `codex login` before using Agent Mode."@
}

/// What is logged before the proxy is started: a warning where no key for the backend is at hand.
pub fn missing_codex_auth(
    platform: Platform,
    env_key: Option<&str>,
    config: Option<&str>,
    auth: Option<&str>,
) -> (r: Option<String>)
    ensures
        opt_view(r) == if key_at_hand(opt_view(env_key), opt_view(config), opt_view(auth)) {
            None
        } else {
            Some(no_key_warning(platform))
        },
{
    let in_env = match env_key {
        Some(key) => !is_blank(key),
        None => false,
    };
    if in_env || json_file_has_key(config, "openai_api_key") || json_file_has_key(
        auth,
        "OPENAI_API_KEY",
    ) {
        return None;
    }
    let mut text = "WarpOCA did not find Codex CLI auth at ".to_owned();
    text.append(codex_auth_hint(platform));
    text.append(". Run `codex login` before using Agent Mode.");
    Some(text)
}

// ---------------------------------------------------------------------------------------------
// Places
// ---------------------------------------------------------------------------------------------
/// An environment variable that names a directory.
#[derive(Clone, Copy, Debug, PartialEq, Eq, Structural)]
pub enum Variable {
    /// `HOME`.
    Home,
    /// `USERPROFILE`.
    UserProfile,
    /// `APPDATA`.
    AppData,
    /// `XDG_DATA_HOME`.
    XdgDataHome,
    /// `CODEX_HOME`.
    CodexHome,
}

/// A place: the directory that a variable names, and the names that follow it.
#[derive(Debug)]
pub struct Place {
    pub variable: Variable,
    pub parts: Vec<String>,
}

/// The model of [`Place`].
#[verifier::ext_equal]
pub struct PlaceView {
    pub variable: Variable,
    pub parts: Seq<Seq<char>>,
}

impl View for Place {
    type V = PlaceView;

    open spec fn view(&self) -> PlaceView {
        PlaceView {
            variable: self.variable,
            parts: views(self.parts@),
        }
    }
}

/// Which variables name a directory: those that are set to something that is not empty.
#[derive(Clone, Copy, Debug, PartialEq, Eq, Structural)]
pub struct Named {
    /// `HOME` is set, to whatever.
    pub home_set: bool,
    pub home: bool,
    pub userprofile: bool,
    pub appdata: bool,
    pub xdg_data_home: bool,
    pub codex_home: bool,
}

/// A place.
pub open spec fn place_at(variable: Variable, parts: Seq<Seq<char>>) -> PlaceView {
    PlaceView { variable, parts }
}

/// A place that one name leads to.
fn place_of_one(variable: Variable, name: &str) -> (r: Place)
    ensures
        r@ == place_at(variable, seq![name@]),
{
    let parts = vec![name.to_owned()];
    assert(views(parts@) =~= seq![name@]);
    Place { variable, parts }
}

/// A place that two names lead to.
fn place_of_two(variable: Variable, first: &str, second: &str) -> (r: Place)
    ensures
        r@ == place_at(variable, seq![first@, second@]),
{
    let parts = vec![first.to_owned(), second.to_owned()];
    assert(views(parts@) =~= seq![first@, second@]);
    Place { variable, parts }
}

/// A place that three names lead to.
fn place_of_three(variable: Variable, first: &str, second: &str, third: &str) -> (r: Place)
    ensures
        r@ == place_at(variable, seq![first@, second@, third@]),
{
    let parts = vec![first.to_owned(), second.to_owned(), third.to_owned()];
    assert(views(parts@) =~= seq![first@, second@, third@]);
    Place { variable, parts }
}

/// The variable that names the home directory of the user.
pub open spec fn home_variable(named: Named, platform: Platform) -> Option<Variable> {
    match platform {
        Platform::Windows => if named.userprofile {
            Some(Variable::UserProfile)
        } else if named.home {
            Some(Variable::Home)
        } else {
            None
        },
        _ => if named.home {
            Some(Variable::Home)
        } else {
            None
        },
    }
}

/// The variable that names the home directory of the user.
pub fn user_home_variable(named: Named, platform: Platform) -> (r: Option<Variable>)
    ensures
        r == home_variable(named, platform),
{
    match platform {
        Platform::Windows => if named.userprofile {
            Some(Variable::UserProfile)
        } else if named.home {
            Some(Variable::Home)
        } else {
            None
        },
        _ => if named.home {
            Some(Variable::Home)
        } else {
            None
        },
    }
}

/// The directory in which the application keeps its files, or what is missing.
pub open spec fn support_dir(named: Named, platform: Platform) -> Result<PlaceView, Seq<char>> {
    match platform {
        Platform::MacOs => if named.home_set {
            Ok(place_at(Variable::Home, seq!["Library/Application Support/WarpOCA"@]))
        } else {
            Err("HOME is not set"@)
        },
        Platform::Windows => if named.appdata {
            Ok(place_at(Variable::AppData, seq!["WarpOCA"@]))
        } else {
            match home_variable(named, platform) {
                Some(home) => Ok(place_at(home, seq!["AppData"@, "Roaming"@, "WarpOCA"@])),
                None => Err("USERPROFILE/HOME is not set"@),
            }
        },
        Platform::Other => if named.xdg_data_home {
            Ok(place_at(Variable::XdgDataHome, seq!["WarpOCA"@]))
        } else {
            match home_variable(named, platform) {
                Some(home) => Ok(place_at(home, seq![".local"@, "share"@, "WarpOCA"@])),
                None => Err("HOME is not set"@),
            }
        },
    }
}

/// The directory in which the application keeps its files, or what is missing.
pub fn app_support_dir(named: Named, platform: Platform) -> (r: Result<Place, String>)
    ensures
        res_view(r) == support_dir(named, platform),
{
    match platform {
        Platform::MacOs => if named.home_set {
            Ok(place_of_one(Variable::Home, "Library/Application Support/WarpOCA"))
        } else {
            Err("HOME is not set".to_owned())
        },
        Platform::Windows => if named.appdata {
            Ok(place_of_one(Variable::AppData, "WarpOCA"))
        } else {
            match user_home_variable(named, platform) {
                Some(home) => Ok(place_of_three(home, "AppData", "Roaming", "WarpOCA")),
                None => Err("USERPROFILE/HOME is not set".to_owned()),
            }
        },
        Platform::Other => if named.xdg_data_home {
            Ok(place_of_one(Variable::XdgDataHome, "WarpOCA"))
        } else {
            match user_home_variable(named, platform) {
                Some(home) => Ok(place_of_three(home, ".local", "share", "WarpOCA")),
                None => Err("HOME is not set".to_owned()),
            }
        },
    }
}

/// The authentication of the Codex CLI, or what is missing.
pub open spec fn auth_place(named: Named, platform: Platform) -> Result<PlaceView, Seq<char>> {
    if named.codex_home {
        Ok(place_at(Variable::CodexHome, seq!["auth.json"@]))
    } else {
        match home_variable(named, platform) {
            Some(home) => Ok(place_at(home, seq![".codex"@, "auth.json"@])),
            None => Err("home directory is not set"@),
        }
    }
}

/// The authentication of the Codex CLI, or what is missing.
pub fn codex_auth_place(named: Named, platform: Platform) -> (r: Result<Place, String>)
    ensures
        res_view(r) == auth_place(named, platform),
{
    if named.codex_home {
        return Ok(place_of_one(Variable::CodexHome, "auth.json"));
    }
    match user_home_variable(named, platform) {
        Some(home) => Ok(place_of_two(home, ".codex", "auth.json")),
        None => Err("home directory is not set".to_owned()),
    }
}

/// The search path of the proxy.
pub open spec fn search_path(platform: Platform, path: Option<Seq<char>>) -> Seq<char> {
    match platform {
        Platform::MacOs => "/usr/local/bin:/opt/homebrew/bin:/usr/bin:/bin:/usr/sbin:/sbin"@,
        Platform::Windows => match path {
            Some(path) => path,
            None =>
                "C:\\Windows\\System32;C:\\Windows;C:\\Windows\\System32\\WindowsPowerShell\\v1.0"@,
        },
        Platform::Other => match path {
            Some(path) => path,
            None => "/usr/local/bin:/usr/bin:/bin"@,
        },
    }
}

/// The search path of the proxy, where that of the application is given.
pub fn helper_path(platform: Platform, path: Option<&str>) -> (r: String)
    ensures
        r@ == search_path(platform, opt_view(path)),
{
    match platform {
        Platform::MacOs => {
            "/usr/local/bin:/opt/homebrew/bin:/usr/bin:/bin:/usr/sbin:/sbin".to_owned()
        },
        Platform::Windows => match path {
            Some(path) => path.to_owned(),
            None =>
                "C:\\Windows\\System32;C:\\Windows;C:\\Windows\\System32\\WindowsPowerShell\\v1.0".to_owned(),
        },
        Platform::Other => match path {
            Some(path) => path.to_owned(),
            None => "/usr/local/bin:/usr/bin:/bin".to_owned(),
        },
    }
}

/// Where the bundled proxy is: from the executable of the application some directories up, and then
/// along some names.
#[derive(Debug)]
pub struct BundledHelper {
    pub levels_up: u64,
    pub parts: Vec<String>,
    /// What is said where there are not that many directories.
    pub missing: String,
}

/// The model of [`BundledHelper`].
#[verifier::ext_equal]
pub struct BundledHelperView {
    pub levels_up: u64,
    pub parts: Seq<Seq<char>>,
    pub missing: Seq<char>,
}

impl View for BundledHelper {
    type V = BundledHelperView;

    open spec fn view(&self) -> BundledHelperView {
        BundledHelperView {
            levels_up: self.levels_up,
            parts: views(self.parts@),
            missing: self.missing@,
        }
    }
}

/// Where the bundled proxy is.
pub open spec fn bundled(platform: Platform) -> BundledHelperView {
    match platform {
        Platform::MacOs => BundledHelperView {
            levels_up: 2,
            parts: seq!["Helpers/byob_proxy"@],
            missing: "failed to locate app bundle Contents directory"@,
        },
        Platform::Windows => BundledHelperView {
            levels_up: 1,
            parts: seq!["Helpers"@, "byob_proxy.exe"@],
            missing: "failed to locate Windows install directory"@,
        },
        Platform::Other => BundledHelperView {
            levels_up: 1,
            parts: seq!["byob_proxy"@],
            missing: "failed to locate install directory"@,
        },
    }
}

/// Where the bundled proxy is.
pub fn bundled_helper(platform: Platform) -> (r: BundledHelper)
    ensures
        r@ == bundled(platform),
{
    match platform {
        Platform::MacOs => {
            let parts = vec!["Helpers/byob_proxy".to_owned()];
            assert(views(parts@) =~= seq!["Helpers/byob_proxy"@]);
            BundledHelper {
                levels_up: 2,
                parts,
                missing: "failed to locate app bundle Contents directory".to_owned(),
            }
        },
        Platform::Windows => {
            let parts = vec!["Helpers".to_owned(), "byob_proxy.exe".to_owned()];
            assert(views(parts@) =~= seq!["Helpers"@, "byob_proxy.exe"@]);
            BundledHelper {
                levels_up: 1,
                parts,
                missing: "failed to locate Windows install directory".to_owned(),
            }
        },
        Platform::Other => {
            let parts = vec!["byob_proxy".to_owned()];
            assert(views(parts@) =~= seq!["byob_proxy"@]);
            BundledHelper {
                levels_up: 1,
                parts,
                missing: "failed to locate install directory".to_owned(),
            }
        },
    }
}

/// Which proxy is started.
#[derive(Clone, Copy, Debug, PartialEq, Eq, Structural)]
pub enum HelperChoice {
    /// The bundled one.
    Bundled,
    /// The one in the directory in which the application keeps its files.
    Installed,
}

/// Which proxy is started: the bundled one where it exists, else the one in the directory in which
/// the application keeps its files, where there is such a directory and it exists there.
pub open spec fn chosen_helper(
    bundled_exists: bool,
    installed_exists: Result<bool, Seq<char>>,
) -> Result<HelperChoice, Seq<char>> {
    if bundled_exists {
        Ok(HelperChoice::Bundled)
    } else {
        match installed_exists {
            Ok(exists) => if exists {
                Ok(HelperChoice::Installed)
            } else {
                Err("missing bundled proxy helper"@)
            },
            Err(message) => Err(message),
        }
    }
}

/// Which proxy is started.
pub fn choose_helper(bundled_exists: bool, installed_exists: Result<bool, String>) -> (r: Result<
    HelperChoice,
    String,
>)
    ensures
        match r {
            Ok(choice) => chosen_helper(
                bundled_exists,
                res_view(installed_exists),
            ) == Ok::<_, Seq<char>>(choice),
            Err(message) => chosen_helper(
                bundled_exists,
                res_view(installed_exists),
            ) == Err::<HelperChoice, _>(message@),
        },
{
    if bundled_exists {
        return Ok(HelperChoice::Bundled);
    }
    match installed_exists {
        Ok(exists) => if exists {
            Ok(HelperChoice::Installed)
        } else {
            Err("missing bundled proxy helper".to_owned())
        },
        Err(message) => Err(message),
    }
}

// ---------------------------------------------------------------------------------------------
// Supervision
// ---------------------------------------------------------------------------------------------
/// What the supervisor has found.
#[derive(Debug)]
pub enum SupervisorEvent {
    /// The proxy is healthy.
    Healthy,
    /// The proxy is not healthy.
    Unhealthy,
    /// The process that was started is running.
    ChildRunning,
    /// The process that was started has ended, with that status.
    ChildExited(String),
    /// The process that was started cannot be inspected.
    ChildUnknown(String),
    /// A process was started.
    Started,
    /// No process could be started.
    NotStarted(String),
}

/// The model of [`SupervisorEvent`].
#[verifier::ext_equal]
pub enum SupervisorEventView {
    Healthy,
    Unhealthy,
    ChildRunning,
    ChildExited(Seq<char>),
    ChildUnknown(Seq<char>),
    Started,
    NotStarted(Seq<char>),
}

impl View for SupervisorEvent {
    type V = SupervisorEventView;

    open spec fn view(&self) -> SupervisorEventView {
        match self {
            SupervisorEvent::Healthy => SupervisorEventView::Healthy,
            SupervisorEvent::Unhealthy => SupervisorEventView::Unhealthy,
            SupervisorEvent::ChildRunning => SupervisorEventView::ChildRunning,
            SupervisorEvent::ChildExited(x) => SupervisorEventView::ChildExited(x@),
            SupervisorEvent::ChildUnknown(x) => SupervisorEventView::ChildUnknown(x@),
            SupervisorEvent::Started => SupervisorEventView::Started,
            SupervisorEvent::NotStarted(x) => SupervisorEventView::NotStarted(x@),
        }
    }
}

/// What the supervisor does next.
#[derive(Debug)]
pub enum SupervisorAction {
    /// Waits for some seconds and asks for the health of the proxy.
    CheckHealth(u64),
    /// Looks after the process that was started.
    InspectChild,
    /// Starts a process.
    StartProxy,
}

/// The model of [`SupervisorAction`].
#[verifier::ext_equal]
pub enum SupervisorActionView {
    CheckHealth(u64),
    InspectChild,
    StartProxy,
}

impl View for SupervisorAction {
    type V = SupervisorActionView;

    open spec fn view(&self) -> SupervisorActionView {
        match self {
            SupervisorAction::CheckHealth(x) => SupervisorActionView::CheckHealth(*x),
            SupervisorAction::InspectChild => SupervisorActionView::InspectChild,
            SupervisorAction::StartProxy => SupervisorActionView::StartProxy,
        }
    }
}

/// A line of the log.
#[derive(Debug)]
pub enum LogLine {
    Info(String),
    Warning(String),
    Failure(String),
}

/// The model of [`LogLine`].
#[verifier::ext_equal]
pub enum LogLineView {
    Info(Seq<char>),
    Warning(Seq<char>),
    Failure(Seq<char>),
}

impl View for LogLine {
    type V = LogLineView;

    open spec fn view(&self) -> LogLineView {
        match self {
            LogLine::Info(x) => LogLineView::Info(x@),
            LogLine::Warning(x) => LogLineView::Warning(x@),
            LogLine::Failure(x) => LogLineView::Failure(x@),
        }
    }
}

/// A step of the supervisor.
#[derive(Debug)]
pub struct SupervisorStep {
    /// Whether a process that was started is kept.
    pub has_child: bool,
    /// What is logged.
    pub log: Option<LogLine>,
    /// What is done next.
    pub action: SupervisorAction,
}

/// The model of [`SupervisorStep`].
#[verifier::ext_equal]
pub struct SupervisorStepView {
    pub has_child: bool,
    pub log: Option<LogLineView>,
    pub action: SupervisorActionView,
}

impl View for SupervisorStep {
    type V = SupervisorStepView;

    open spec fn view(&self) -> SupervisorStepView {
        SupervisorStepView {
            has_child: self.has_child,
            log: opt_view(self.log),
            action: self.action@,
        }
    }
}

/// The step that an event leads to, where it is known whether a process that was started is kept.
pub open spec fn supervised(has_child: bool, event: SupervisorEventView) -> SupervisorStepView {
    match event {
        SupervisorEventView::Healthy => SupervisorStepView {
            has_child,
            log: None,
            action: SupervisorActionView::CheckHealth(5),
        },
        SupervisorEventView::Unhealthy => SupervisorStepView {
            has_child,
            log: None,
            action: if has_child {
                SupervisorActionView::InspectChild
            } else {
                SupervisorActionView::StartProxy
            },
        },
        SupervisorEventView::ChildRunning => SupervisorStepView {
            has_child,
            log: None,
            action: SupervisorActionView::CheckHealth(2),
        },
        SupervisorEventView::ChildExited(status) => SupervisorStepView {
            has_child: false,
            log: Some(LogLineView::Warning("WarpOCA proxy exited with status "@ + status)),
            action: SupervisorActionView::StartProxy,
        },
        SupervisorEventView::ChildUnknown(error) => SupervisorStepView {
            has_child: false,
            log: Some(
                LogLineView::Warning("Unable to inspect WarpOCA proxy process: "@ + error),
            ),
            action: SupervisorActionView::StartProxy,
        },
        SupervisorEventView::Started => SupervisorStepView {
            has_child: true,
            log: Some(LogLineView::Info("Started bundled WarpOCA proxy"@)),
            action: SupervisorActionView::CheckHealth(0),
        },
        SupervisorEventView::NotStarted(error) => SupervisorStepView {
            has_child,
            log: Some(
                LogLineView::Failure("Unable to start bundled WarpOCA proxy: "@ + error),
            ),
            action: SupervisorActionView::CheckHealth(5),
        },
    }
}

/// A text with another behind it.
fn with_detail(text: &str, detail: String) -> (r: String)
    ensures
        r@ == text@ + detail@,
{
    let mut line = text.to_owned();
    line.append(detail.as_str());
    line
}

/// The step that an event leads to.
pub fn supervise(has_child: bool, event: SupervisorEvent) -> (r: SupervisorStep)
    ensures
        r@ == supervised(has_child, event@),
{
    match event {
        SupervisorEvent::Healthy => SupervisorStep {
            has_child,
            log: None,
            action: SupervisorAction::CheckHealth(5),
        },
        SupervisorEvent::Unhealthy => SupervisorStep {
            has_child,
            log: None,
            action: if has_child {
                SupervisorAction::InspectChild
            } else {
                SupervisorAction::StartProxy
            },
        },
        SupervisorEvent::ChildRunning => SupervisorStep {
            has_child,
            log: None,
            action: SupervisorAction::CheckHealth(2),
        },
        SupervisorEvent::ChildExited(status) => SupervisorStep {
            has_child: false,
            log: Some(LogLine::Warning(with_detail("WarpOCA proxy exited with status ", status))),
            action: SupervisorAction::StartProxy,
        },
        SupervisorEvent::ChildUnknown(error) => SupervisorStep {
            has_child: false,
            log: Some(
                LogLine::Warning(with_detail("Unable to inspect WarpOCA proxy process: ", error)),
            ),
            action: SupervisorAction::StartProxy,
        },
        SupervisorEvent::Started => SupervisorStep {
            has_child: true,
            log: Some(LogLine::Info("Started bundled WarpOCA proxy".to_owned())),
            action: SupervisorAction::CheckHealth(0),
        },
        SupervisorEvent::NotStarted(error) => SupervisorStep {
            has_child,
            log: Some(
                LogLine::Failure(with_detail("Unable to start bundled WarpOCA proxy: ", error)),
            ),
            action: SupervisorAction::CheckHealth(5),
        },
    }
}

/// A process is started only when none is kept, and looked after only when one is: the supervisor
/// never has two.
pub proof fn lemma_one_child(has_child: bool, event: SupervisorEventView)
    ensures
        supervised(has_child, event).action is StartProxy ==> !supervised(
            has_child,
            event,
        ).has_child,
        supervised(has_child, event).action is InspectChild ==> supervised(
            has_child,
            event,
        ).has_child,
{
}

/// A proxy that is healthy, and a process that is running, are left alone.
pub proof fn lemma_running_proxy_is_left_alone(has_child: bool)
    ensures
        supervised(has_child, SupervisorEventView::Healthy).action is CheckHealth,
        supervised(has_child, SupervisorEventView::Healthy).has_child == has_child,
        supervised(has_child, SupervisorEventView::ChildRunning).action is CheckHealth,
        supervised(has_child, SupervisorEventView::ChildRunning).has_child == has_child,
{
}

/// What follows an event: a healthy proxy is asked again after five seconds, a running one after
/// two, a started one at once; an unhealthy one is looked at where it is a process of this program,
/// and started where it is not. A process that ended is started again.
pub proof fn lemma_what_follows(has_child: bool, status: Seq<char>)
    ensures
        supervised(has_child, SupervisorEventView::Healthy).action
            == SupervisorActionView::CheckHealth(5),
        supervised(true, SupervisorEventView::Unhealthy).action is InspectChild,
        supervised(false, SupervisorEventView::Unhealthy).action is StartProxy,
        supervised(has_child, SupervisorEventView::Unhealthy).has_child == has_child,
        supervised(has_child, SupervisorEventView::ChildRunning).action
            == SupervisorActionView::CheckHealth(2),
        supervised(has_child, SupervisorEventView::ChildExited(status)).action is StartProxy,
        !supervised(has_child, SupervisorEventView::ChildExited(status)).has_child,
        supervised(has_child, SupervisorEventView::ChildExited(status)).log == Some(
            LogLineView::Warning("WarpOCA proxy exited with status "@ + status),
        ),
        supervised(has_child, SupervisorEventView::ChildUnknown(status)).action is StartProxy,
        !supervised(has_child, SupervisorEventView::ChildUnknown(status)).has_child,
        supervised(has_child, SupervisorEventView::ChildUnknown(status)).log == Some(
            LogLineView::Warning("Unable to inspect WarpOCA proxy process: "@ + status),
        ),
        supervised(has_child, SupervisorEventView::Started).has_child,
        supervised(has_child, SupervisorEventView::Started).action
            == SupervisorActionView::CheckHealth(0),
        supervised(has_child, SupervisorEventView::Started).log == Some(
            LogLineView::Info("Started bundled WarpOCA proxy"@),
        ),
        supervised(has_child, SupervisorEventView::NotStarted(status)).has_child == has_child,
        supervised(has_child, SupervisorEventView::NotStarted(status)).action
            == SupervisorActionView::CheckHealth(5),
        supervised(has_child, SupervisorEventView::NotStarted(status)).log == Some(
            LogLineView::Failure("Unable to start bundled WarpOCA proxy: "@ + status),
        ),
        supervised(has_child, SupervisorEventView::Healthy).log is None,
        supervised(has_child, SupervisorEventView::Unhealthy).log is None,
        supervised(has_child, SupervisorEventView::ChildRunning).log is None,
{
}

/// A key is at hand where the environment, the configuration or the file of the command line tool
/// holds one that is not blank.
pub proof fn lemma_where_keys_are_found(
    key: Seq<char>,
    text: Seq<char>,
    json: JsonView,
    config: Option<Seq<char>>,
    auth: Option<Seq<char>>,
    env_key: Option<Seq<char>>,
)
    ensures
        !blank(key) ==> key_at_hand(Some(key), config, auth),
        json_reading(text) == Ok::<JsonView, Seq<char>>(json) && json.get_str("openai_api_key"@)
            == Some(key) && !blank(key) ==> key_at_hand(env_key, Some(text), auth),
        json_reading(text) == Ok::<JsonView, Seq<char>>(json) && json.get_str("OPENAI_API_KEY"@)
            == Some(key) && !blank(key) ==> key_at_hand(env_key, config, Some(text)),
        !key_at_hand(None, None, None),
        blank(key) ==> key_at_hand(Some(key), config, auth) == key_at_hand(None, config, auth),
        json_reading(text) is Err ==> key_at_hand(env_key, Some(text), auth) == key_at_hand(
            env_key,
            None,
            auth,
        ) && key_at_hand(env_key, config, Some(text)) == key_at_hand(env_key, config, None),
        json_reading(text) == Ok::<JsonView, Seq<char>>(json) && json.get("openai_api_key"@) is None
            ==> key_at_hand(env_key, Some(text), auth) == key_at_hand(env_key, None, auth),
        json_reading(text) == Ok::<JsonView, Seq<char>>(json) && json.get("OPENAI_API_KEY"@) is None
            ==> key_at_hand(env_key, config, Some(text)) == key_at_hand(env_key, config, None),
{
}

/// An answer that starts with the right line is healthy, and no other one.
pub proof fn lemma_which_answers_are_healthy(rest: Seq<char>, text: Seq<char>)
    ensures
        healthy(encode_utf8("HTTP/1.1 200"@ + rest)),
        !has_prefix(text, "HTTP/1.1 200"@) ==> !healthy(encode_utf8(text)),
{
    let all = "HTTP/1.1 200"@ + rest;
    encode_utf8_valid_utf8(all);
    encode_utf8_decode_utf8(all);
    assert(all.take("HTTP/1.1 200"@.len() as int) =~= "HTTP/1.1 200"@);
    encode_utf8_valid_utf8(text);
    encode_utf8_decode_utf8(text);
}

/// The directory of the application on each platform.
pub proof fn lemma_where_the_application_keeps_files(named: Named)
    ensures
        named.home_set ==> support_dir(named, Platform::MacOs) == Ok::<PlaceView, Seq<char>>(
            PlaceView {
                variable: Variable::Home,
                parts: seq!["Library/Application Support/WarpOCA"@],
            },
        ),
        !named.home_set ==> support_dir(named, Platform::MacOs) is Err,
        named.appdata ==> support_dir(named, Platform::Windows) == Ok::<PlaceView, Seq<char>>(
            PlaceView { variable: Variable::AppData, parts: seq!["WarpOCA"@] },
        ),
        !named.appdata && named.userprofile ==> support_dir(named, Platform::Windows) == Ok::<
            PlaceView,
            Seq<char>,
        >(
            PlaceView {
                variable: Variable::UserProfile,
                parts: seq!["AppData"@, "Roaming"@, "WarpOCA"@],
            },
        ),
        !named.appdata && !named.userprofile && named.home ==> support_dir(named, Platform::Windows)
            == Ok::<PlaceView, Seq<char>>(
            PlaceView {
                variable: Variable::Home,
                parts: seq!["AppData"@, "Roaming"@, "WarpOCA"@],
            },
        ),
        !named.appdata && !named.userprofile && !named.home ==> support_dir(
            named,
            Platform::Windows,
        ) is Err,
        named.xdg_data_home ==> support_dir(named, Platform::Other) == Ok::<PlaceView, Seq<char>>(
            PlaceView { variable: Variable::XdgDataHome, parts: seq!["WarpOCA"@] },
        ),
        !named.xdg_data_home && named.home ==> support_dir(named, Platform::Other) == Ok::<
            PlaceView,
            Seq<char>,
        >(
            PlaceView {
                variable: Variable::Home,
                parts: seq![".local"@, "share"@, "WarpOCA"@],
            },
        ),
        !named.xdg_data_home && !named.home ==> support_dir(named, Platform::Other) is Err,
{
}

/// The file with the key of the command line tool.
pub proof fn lemma_where_the_key_is_kept(named: Named, platform: Platform)
    ensures
        named.codex_home ==> auth_place(named, platform) == Ok::<PlaceView, Seq<char>>(
            PlaceView { variable: Variable::CodexHome, parts: seq!["auth.json"@] },
        ),
        !named.codex_home && named.home && platform != Platform::Windows ==> auth_place(
            named,
            platform,
        ) == Ok::<PlaceView, Seq<char>>(
            PlaceView { variable: Variable::Home, parts: seq![".codex"@, "auth.json"@] },
        ),
        !named.codex_home && named.userprofile ==> auth_place(named, Platform::Windows) == Ok::<
            PlaceView,
            Seq<char>,
        >(PlaceView { variable: Variable::UserProfile, parts: seq![".codex"@, "auth.json"@] }),
        !named.codex_home && !named.userprofile && !named.home ==> auth_place(named, platform)
            is Err,
{
}

/// The helper that comes with the application is taken before the one that was installed.
pub proof fn lemma_which_helper(
    installed: Result<bool, Seq<char>>,
    message: Seq<char>,
    path: Seq<char>,
)
    ensures
        chosen_helper(true, installed) == Ok::<HelperChoice, Seq<char>>(HelperChoice::Bundled),
        chosen_helper(false, Ok(true)) == Ok::<HelperChoice, Seq<char>>(HelperChoice::Installed),
        chosen_helper(false, Ok(false)) == Err::<HelperChoice, Seq<char>>(
            "missing bundled proxy helper"@,
        ),
        chosen_helper(false, Err(message)) == Err::<HelperChoice, Seq<char>>(message),
        search_path(Platform::Windows, Some(path)) == path,
        search_path(Platform::Other, Some(path)) == path,
        search_path(Platform::Other, None) == "/usr/local/bin:/usr/bin:/bin"@,
        search_path(Platform::MacOs, Some(path))
            == "/usr/local/bin:/opt/homebrew/bin:/usr/bin:/bin:/usr/sbin:/sbin"@,
        bundled(Platform::MacOs).levels_up == 2,
        bundled(Platform::Windows).levels_up == 1,
        bundled(Platform::Other).levels_up == 1,
        bundled(Platform::MacOs).parts == seq!["Helpers/byob_proxy"@],
        bundled(Platform::Windows).parts == seq!["Helpers"@, "byob_proxy.exe"@],
        bundled(Platform::Other).parts == seq!["byob_proxy"@],
{
}

/// A missing key is warned of with the place where it is looked for.
pub proof fn lemma_warnings(platform: Platform)
    ensures
        platform == Platform::Windows ==> no_key_warning(platform)
            == "WarpOCA did not find Codex CLI auth at "@ + "%USERPROFILE%\\.codex\\auth.json"@
            + ". Run `codex login` before using Agent Mode."@,
        platform != Platform::Windows ==> no_key_warning(platform)
            == "WarpOCA did not find Codex CLI auth at "@ + "~/.codex/auth.json"@
            + ". Run `codex login` before using Agent Mode."@,
{
}

/// What is said where a place cannot be found.
pub proof fn lemma_places_that_are_missing(named: Named)
    ensures
        !named.home_set ==> support_dir(named, Platform::MacOs) == Err::<PlaceView, Seq<char>>(
            "HOME is not set"@,
        ),
        !named.appdata && !named.userprofile && !named.home ==> support_dir(
            named,
            Platform::Windows,
        ) == Err::<PlaceView, Seq<char>>("USERPROFILE/HOME is not set"@),
        !named.xdg_data_home && !named.home ==> support_dir(named, Platform::Other) == Err::<
            PlaceView,
            Seq<char>,
        >("HOME is not set"@),
        !named.codex_home && !named.home ==> auth_place(named, Platform::Other) == Err::<
            PlaceView,
            Seq<char>,
        >("home directory is not set"@),
        bundled(Platform::MacOs).missing == "failed to locate app bundle Contents directory"@,
        bundled(Platform::Windows).missing == "failed to locate Windows install directory"@,
        bundled(Platform::Other).missing == "failed to locate install directory"@,
{
}

} // verus!
