//! Where the files of the configuration are, by platform and environment.
//!
//! Paths are not joined here: a path is a base and the names that follow it, which the caller joins
//! as the platform does.
use crate::config::{nonempty, nonempty_string, or_else};
use crate::lists::{borrowed, copy_texts, reversed};
use crate::text::{blank, opt_view, trimmed, views};
use vstd::prelude::*;

verus! {

/// A platform.
#[derive(Clone, Copy, Debug, PartialEq, Eq, Structural)]
pub enum Platform {
    MacOs,
    Windows,
    Other,
}

/// The file with the authentication of the Codex CLI, as it is shown to the user.
pub open spec fn auth_hint(platform: Platform) -> Seq<char> {
    match platform {
        Platform::Windows => "%USERPROFILE%\\.codex\\auth.json"@,
        _ => "~/.codex/auth.json"@,
    }
}

/// The file with the authentication of the Codex CLI, as it is shown to the user.
pub fn codex_auth_hint(platform: Platform) -> (r: &'static str)
    ensures
        r@ == auth_hint(platform),
{
    match platform {
        Platform::Windows => "%USERPROFILE%\\.codex\\auth.json",
        _ => "~/.codex/auth.json",
    }
}

/// A path: a base and the names that follow it.
#[derive(Debug)]
pub struct PathPlan {
    pub base: String,
    pub parts: Vec<String>,
}

/// The model of [`PathPlan`].
#[verifier::ext_equal]
pub struct PathPlanView {
    pub base: Seq<char>,
    pub parts: Seq<Seq<char>>,
}

impl View for PathPlan {
    type V = PathPlanView;

    open spec fn view(&self) -> PathPlanView {
        PathPlanView {
            base: self.base@,
            parts: views(self.parts@),
        }
    }
}

/// The environment variables that say where files are.
#[derive(Debug)]
pub struct PathEnv {
    /// `BYOB_CONFIG_PATH`.
    pub byob_config_path: Option<String>,
    /// `BYOB_CODEX_CONFIG_PATH`.
    pub byob_codex_config_path: Option<String>,
    /// `BYOB_CODEX_AUTH_PATH`.
    pub byob_codex_auth_path: Option<String>,
    /// `CODEX_HOME`.
    pub codex_home: Option<String>,
    /// `USERPROFILE`.
    pub userprofile: Option<String>,
    /// `HOME`.
    pub home: Option<String>,
    /// `APPDATA`.
    pub appdata: Option<String>,
    /// `XDG_DATA_HOME`.
    pub xdg_data_home: Option<String>,
}

/// The model of [`PathEnv`].
#[verifier::ext_equal]
pub struct PathEnvView {
    pub byob_config_path: Option<Seq<char>>,
    pub byob_codex_config_path: Option<Seq<char>>,
    pub byob_codex_auth_path: Option<Seq<char>>,
    pub codex_home: Option<Seq<char>>,
    pub userprofile: Option<Seq<char>>,
    pub home: Option<Seq<char>>,
    pub appdata: Option<Seq<char>>,
    pub xdg_data_home: Option<Seq<char>>,
}

impl View for PathEnv {
    type V = PathEnvView;

    open spec fn view(&self) -> PathEnvView {
        PathEnvView {
            byob_config_path: opt_view(self.byob_config_path),
            byob_codex_config_path: opt_view(self.byob_codex_config_path),
            byob_codex_auth_path: opt_view(self.byob_codex_auth_path),
            codex_home: opt_view(self.codex_home),
            userprofile: opt_view(self.userprofile),
            home: opt_view(self.home),
            appdata: opt_view(self.appdata),
            xdg_data_home: opt_view(self.xdg_data_home),
        }
    }
}

/// A path.
pub open spec fn path_at(base: Seq<char>, parts: Seq<Seq<char>>) -> PathPlanView {
    PathPlanView { base, parts }
}

/// A path under a base, where there is one.
pub open spec fn path_under(
    base: Option<Seq<char>>,
    parts: Seq<Seq<char>>,
) -> Option<PathPlanView> {
    match base {
        Some(base) => Some(path_at(base, parts)),
        None => None,
    }
}

/// A path under a base that is one name.
fn child(base: String, name: &str) -> (r: PathPlan)
    ensures
        r@ == path_at(base@, seq![name@]),
{
    let parts = vec![name.to_owned()];
    assert(views(parts@) =~= seq![name@]);
    PathPlan { base, parts }
}

/// A path under a base that is two names.
fn grandchild(base: String, first: &str, second: &str) -> (r: PathPlan)
    ensures
        r@ == path_at(base@, seq![first@, second@]),
{
    let parts = vec![first.to_owned(), second.to_owned()];
    assert(views(parts@) =~= seq![first@, second@]);
    PathPlan { base, parts }
}

/// A path that is its base.
fn whole(base: String) -> (r: PathPlan)
    ensures
        r@ == path_at(base@, Seq::empty()),
{
    let parts: Vec<String> = Vec::new();
    assert(views(parts@) =~= Seq::<Seq<char>>::empty());
    PathPlan { base, parts }
}

/// The value of a variable that is not blank.
fn set_value(value: &Option<String>) -> (r: Option<String>)
    ensures
        opt_view(r) == nonempty(opt_view(*value)),
{
    nonempty_string(borrowed(value))
}

/// The home directory of the user.
pub open spec fn home_of(env: PathEnvView, platform: Platform) -> Option<Seq<char>> {
    match platform {
        Platform::Windows => or_else(nonempty(env.userprofile), nonempty(env.home)),
        _ => nonempty(env.home),
    }
}

/// The home directory of the user.
pub fn user_home_dir(env: &PathEnv, platform: Platform) -> (r: Option<String>)
    ensures
        opt_view(r) == home_of(env@, platform),
{
    match platform {
        Platform::Windows => match set_value(&env.userprofile) {
            Some(home) => Some(home),
            None => set_value(&env.home),
        },
        _ => set_value(&env.home),
    }
}

/// The configuration of the Codex CLI: what a variable of its own says, else in the home of the
/// Codex CLI, else in the home directory of the user.
pub open spec fn codex_config_at(env: PathEnvView, platform: Platform) -> Option<PathPlanView> {
    or_else(
        path_under(nonempty(env.byob_codex_config_path), Seq::empty()),
        or_else(
            path_under(nonempty(env.codex_home), seq!["config.toml"@]),
            path_under(home_of(env, platform), seq![".codex"@, "config.toml"@]),
        ),
    )
}

/// The configuration of the Codex CLI.
pub fn codex_config_path(env: &PathEnv, platform: Platform) -> (r: Option<PathPlan>)
    ensures
        opt_view(r) == codex_config_at(env@, platform),
{
    match set_value(&env.byob_codex_config_path) {
        Some(path) => {
            return Some(whole(path));
        },
        None => {},
    }
    match set_value(&env.codex_home) {
        Some(home) => {
            return Some(child(home, "config.toml"));
        },
        None => {},
    }
    match user_home_dir(env, platform) {
        Some(home) => Some(grandchild(home, ".codex", "config.toml")),
        None => None,
    }
}

/// The authentication of the Codex CLI: what a variable of its own says, else in the home of the
/// Codex CLI, else in the home directory of the user.
pub open spec fn codex_auth_at(env: PathEnvView, platform: Platform) -> Option<PathPlanView> {
    or_else(
        path_under(nonempty(env.byob_codex_auth_path), Seq::empty()),
        or_else(
            path_under(nonempty(env.codex_home), seq!["auth.json"@]),
            path_under(home_of(env, platform), seq![".codex"@, "auth.json"@]),
        ),
    )
}

/// The authentication of the Codex CLI.
pub fn codex_auth_path(env: &PathEnv, platform: Platform) -> (r: Option<PathPlan>)
    ensures
        opt_view(r) == codex_auth_at(env@, platform),
{
    match set_value(&env.byob_codex_auth_path) {
        Some(path) => {
            return Some(whole(path));
        },
        None => {},
    }
    match set_value(&env.codex_home) {
        Some(home) => {
            return Some(child(home, "auth.json"));
        },
        None => {},
    }
    match user_home_dir(env, platform) {
        Some(home) => Some(grandchild(home, ".codex", "auth.json")),
        None => None,
    }
}

/// One path, where there is one.
pub open spec fn one_path(path: Option<PathPlanView>) -> Seq<PathPlanView> {
    match path {
        Some(path) => seq![path],
        None => Seq::empty(),
    }
}

/// The directories in which applications keep their files, from the first to look in.
pub open spec fn support_roots(env: PathEnvView, platform: Platform) -> Seq<PathPlanView> {
    let home = home_of(env, platform);
    match platform {
        Platform::MacOs => one_path(path_under(home, seq!["Library/Application Support"@])),
        Platform::Windows => one_path(path_under(nonempty(env.appdata), Seq::empty())) + one_path(
            path_under(home, seq!["AppData"@, "Roaming"@]),
        ),
        Platform::Other => one_path(path_under(nonempty(env.xdg_data_home), Seq::empty()))
            + one_path(path_under(home, seq![".local"@, "share"@])),
    }
}

/// Adds a path, where there is one.
fn push_path(paths: &mut Vec<PathPlan>, path: Option<PathPlan>)
    ensures
        views(final(paths)@) == views(old(paths)@) + one_path(opt_view(path)),
{
    let ghost before = views(paths@);
    match path {
        Some(plan) => {
            paths.push(plan);
            assert(views(paths@) =~= before + seq![plan@]);
        },
        None => {
            assert(views(paths@) =~= before + Seq::<PathPlanView>::empty());
        },
    }
}

/// The directories in which applications keep their files, from the first to look in.
pub fn app_support_roots(env: &PathEnv, platform: Platform) -> (r: Vec<PathPlan>)
    ensures
        views(r@) == support_roots(env@, platform),
{
    let mut roots: Vec<PathPlan> = Vec::new();
    let home = user_home_dir(env, platform);
    assert(views(roots@) =~= Seq::<PathPlanView>::empty());
    match platform {
        Platform::MacOs => {
            let path = match home {
                Some(dir) => Some(child(dir, "Library/Application Support")),
                None => None,
            };
            push_path(&mut roots, path);
        },
        Platform::Windows => {
            let appdata = match set_value(&env.appdata) {
                Some(dir) => Some(whole(dir)),
                None => None,
            };
            push_path(&mut roots, appdata);
            let roaming = match home {
                Some(dir) => Some(grandchild(dir, "AppData", "Roaming")),
                None => None,
            };
            push_path(&mut roots, roaming);
        },
        Platform::Other => {
            let data_home = match set_value(&env.xdg_data_home) {
                Some(dir) => Some(whole(dir)),
                None => None,
            };
            push_path(&mut roots, data_home);
            let share = match home {
                Some(dir) => Some(grandchild(dir, ".local", "share")),
                None => None,
            };
            push_path(&mut roots, share);
        },
    }
    assert(views(roots@) =~= support_roots(env@, platform));
    roots
}

/// A path with names behind it.
pub open spec fn extended_path(root: PathPlanView, names: Seq<Seq<char>>) -> PathPlanView {
    path_at(root.base, root.parts + names)
}

/// A path with the file of the configuration of an application behind it.
fn config_under(root: &PathPlan, name: &str) -> (r: PathPlan)
    ensures
        r@ == extended_path(root@, seq![name@, "config.json"@]),
{
    let ghost names = views(root.parts@);
    let mut parts = copy_texts(&root.parts);
    parts.push(name.to_owned());
    parts.push("config.json".to_owned());
    assert(views(parts@) =~= names + seq![name@, "config.json"@]);
    PathPlan { base: root.base.clone(), parts }
}

/// The files of the configuration under a root: those of the application and of its earlier names.
pub open spec fn configs_under(root: PathPlanView) -> Seq<PathPlanView> {
    seq![
        extended_path(root, seq!["WarpOCA"@, "config.json"@]),
        extended_path(root, seq!["WarpOCI"@, "config.json"@]),
        extended_path(root, seq!["WarpByob"@, "config.json"@]),
    ]
}

/// The files of the configuration under some roots.
pub open spec fn configs_in(roots: Seq<PathPlanView>) -> Seq<PathPlanView>
    decreases roots.len(),
{
    if roots.len() == 0 {
        Seq::empty()
    } else {
        configs_in(roots.drop_last()) + configs_under(roots.last())
    }
}

/// The places at which the configuration may be, from the first to look at.
pub fn byob_config_candidates(env: &PathEnv, platform: Platform) -> (r: Vec<PathPlan>)
    ensures
        views(r@) == configs_in(support_roots(env@, platform)),
{
    let roots = app_support_roots(env, platform);
    let ghost all = views(roots@);
    let mut candidates: Vec<PathPlan> = Vec::new();
    assert(views(candidates@) =~= configs_in(all.take(0)));
    let mut i: usize = 0;
    while i < roots.len()
        invariant
            i <= roots.len(),
            all == views(roots@),
            views(candidates@) == configs_in(all.take(i as int)),
        decreases roots.len() - i,
    {
        let ghost before = views(candidates@);
        assert(all.take(i + 1).drop_last() == all.take(i as int));
        candidates.push(config_under(&roots[i], "WarpOCA"));
        candidates.push(config_under(&roots[i], "WarpOCI"));
        candidates.push(config_under(&roots[i], "WarpByob"));
        assert(views(candidates@) =~= before + configs_under(all[i as int]));
        i += 1;
    }
    assert(all.take(all.len() as int) == all);
    candidates
}

/// The first of some paths that exists.
pub open spec fn first_existing(paths: Seq<PathPlanView>, exist: Seq<bool>) -> Option<PathPlanView>
    decreases paths.len(),
{
    if paths.len() == 0 || exist.len() == 0 {
        None
    } else if exist[0] {
        Some(paths[0])
    } else {
        first_existing(paths.skip(1), exist.skip(1))
    }
}

/// The file with the configuration, where it is known which of the candidates exist: what the
/// variable says, else the first candidate that exists.
pub fn byob_config_path(
    env: &PathEnv,
    platform: Platform,
    exist: &Vec<bool>,
) -> (r: Option<PathPlan>)
    ensures
        opt_view(r) == or_else(
            path_under(nonempty(env@.byob_config_path), Seq::empty()),
            first_existing(configs_in(support_roots(env@, platform)), exist@),
        ),
{
    match set_value(&env.byob_config_path) {
        Some(path) => {
            return Some(whole(path));
        },
        None => {},
    }
    let candidates = byob_config_candidates(env, platform);
    let ghost all = views(candidates@);
    let mut rest = reversed(candidates);
    let mut i: usize = 0;
    assert(all.skip(0) == all);
    assert(exist@.skip(0) == exist@);
    while i < exist.len() && rest.len() > 0
        invariant
            i <= exist.len(),
            i + rest@.len() == all.len(),
            forall|k: int|
                0 <= k < rest@.len() ==> (#[trigger] rest@[k])@ == all[all.len() - 1 - k],
            first_existing(all, exist@) == first_existing(
                all.skip(i as int),
                exist@.skip(i as int),
            ),
            all == configs_in(support_roots(env@, platform)),
            nonempty(env@.byob_config_path) is None,
        decreases rest@.len(),
    {
        match rest.pop() {
            Some(path) => {
                assert(path@ == all[i as int]);
                if exist[i] {
                    return Some(path);
                }
            },
            None => {},
        }
        assert(all.skip(i as int).skip(1) == all.skip(i + 1));
        assert(exist@.skip(i as int).skip(1) == exist@.skip(i + 1));
        i += 1;
    }
    None
}

/// The directory of the user.
pub proof fn lemma_which_home(env: PathEnvView, home: Seq<char>, profile: Seq<char>)
    requires
        env.home == Some(home),
        !blank(home),
    ensures
        home_of(env, Platform::MacOs) == Some(trimmed(home)),
        home_of(env, Platform::Other) == Some(trimmed(home)),
        env.userprofile is None ==> home_of(env, Platform::Windows) == Some(trimmed(home)),
        env.userprofile == Some(profile) && !blank(profile) ==> home_of(env, Platform::Windows)
            == Some(trimmed(profile)),
        env.userprofile == Some(profile) && blank(profile) ==> home_of(env, Platform::Windows)
            == Some(trimmed(home)),
{
}

/// Where nothing says where the user is at home, there is no path below it.
pub proof fn lemma_no_home(env: PathEnvView, platform: Platform)
    requires
        env.home is None,
        env.userprofile is None,
    ensures
        home_of(env, platform) is None,
        env.byob_codex_config_path is None && env.codex_home is None ==> codex_config_at(
            env,
            platform,
        ) is None,
        env.byob_codex_auth_path is None && env.codex_home is None ==> codex_auth_at(env, platform)
            is None,
        env.appdata is None && env.xdg_data_home is None ==> support_roots(env, platform).len()
            == 0,
{
}

/// The files of the command line tool: where the proxy is told, else in the directory of the tool,
/// else in the directory of the user.
pub proof fn lemma_files_of_the_tool(env: PathEnvView, platform: Platform, path: Seq<char>)
    requires
        !blank(path),
    ensures
        env.byob_codex_config_path == Some(path) ==> codex_config_at(env, platform) == Some(
            PathPlanView { base: trimmed(path), parts: Seq::empty() },
        ),
        env.byob_codex_auth_path == Some(path) ==> codex_auth_at(env, platform) == Some(
            PathPlanView { base: trimmed(path), parts: Seq::empty() },
        ),
        env.byob_codex_config_path is None && env.codex_home == Some(path) ==> codex_config_at(
            env,
            platform,
        ) == Some(PathPlanView { base: trimmed(path), parts: seq!["config.toml"@] }),
        env.byob_codex_auth_path is None && env.codex_home == Some(path) ==> codex_auth_at(
            env,
            platform,
        ) == Some(PathPlanView { base: trimmed(path), parts: seq!["auth.json"@] }),
        env.byob_codex_config_path is None && env.codex_home is None && home_of(env, platform)
            == Some(path) ==> codex_config_at(env, platform) == Some(
            PathPlanView { base: path, parts: seq![".codex"@, "config.toml"@] },
        ),
        env.byob_codex_auth_path is None && env.codex_home is None && home_of(env, platform)
            == Some(path) ==> codex_auth_at(env, platform) == Some(
            PathPlanView { base: path, parts: seq![".codex"@, "auth.json"@] },
        ),
{
}

/// The files of the proxy are looked for below the directories of the platform, under the three
/// names of the application, the newest one first.
pub proof fn lemma_files_of_the_proxy(env: PathEnvView, home: Seq<char>)
    requires
        env.home == Some(home),
        !blank(home),
        env.userprofile is None,
        env.appdata is None,
        env.xdg_data_home is None,
    ensures
        ({
            let base = trimmed(home);
            let mac = "Library/Application Support"@;
            &&& configs_in(support_roots(env, Platform::MacOs)) == seq![
                PathPlanView { base, parts: seq![mac, "WarpOCA"@, "config.json"@] },
                PathPlanView { base, parts: seq![mac, "WarpOCI"@, "config.json"@] },
                PathPlanView { base, parts: seq![mac, "WarpByob"@, "config.json"@] },
            ]
            &&& configs_in(support_roots(env, Platform::Windows)) == seq![
                PathPlanView {
                    base,
                    parts: seq!["AppData"@, "Roaming"@, "WarpOCA"@, "config.json"@],
                },
                PathPlanView {
                    base,
                    parts: seq!["AppData"@, "Roaming"@, "WarpOCI"@, "config.json"@],
                },
                PathPlanView {
                    base,
                    parts: seq!["AppData"@, "Roaming"@, "WarpByob"@, "config.json"@],
                },
            ]
            &&& configs_in(support_roots(env, Platform::Other)) == seq![
                PathPlanView {
                    base,
                    parts: seq![".local"@, "share"@, "WarpOCA"@, "config.json"@],
                },
                PathPlanView {
                    base,
                    parts: seq![".local"@, "share"@, "WarpOCI"@, "config.json"@],
                },
                PathPlanView {
                    base,
                    parts: seq![".local"@, "share"@, "WarpByob"@, "config.json"@],
                },
            ]
        }),
{
    let base = trimmed(home);
    lemma_one_root(base, seq!["Library/Application Support"@]);
    lemma_one_root(base, seq!["AppData"@, "Roaming"@]);
    lemma_one_root(base, seq![".local"@, "share"@]);
    let mac = PathPlanView { base, parts: seq!["Library/Application Support"@] };
    assert(support_roots(env, Platform::MacOs) =~= seq![mac]);
    let windows = PathPlanView { base, parts: seq!["AppData"@, "Roaming"@] };
    assert(support_roots(env, Platform::Windows) =~= seq![windows]);
    let other = PathPlanView { base, parts: seq![".local"@, "share"@] };
    assert(support_roots(env, Platform::Other) =~= seq![other]);
    let l = "Library/Application Support"@;
    assert(mac.parts + seq!["WarpOCA"@, "config.json"@] =~= seq![l, "WarpOCA"@, "config.json"@]);
    assert(mac.parts + seq!["WarpOCI"@, "config.json"@] =~= seq![l, "WarpOCI"@, "config.json"@]);
    assert(mac.parts + seq!["WarpByob"@, "config.json"@] =~= seq![l, "WarpByob"@, "config.json"@]);
    lemma_four_parts("AppData"@, "Roaming"@, "WarpOCA"@, "config.json"@);
    lemma_four_parts("AppData"@, "Roaming"@, "WarpOCI"@, "config.json"@);
    lemma_four_parts("AppData"@, "Roaming"@, "WarpByob"@, "config.json"@);
    lemma_four_parts(".local"@, "share"@, "WarpOCA"@, "config.json"@);
    lemma_four_parts(".local"@, "share"@, "WarpOCI"@, "config.json"@);
    lemma_four_parts(".local"@, "share"@, "WarpByob"@, "config.json"@);
}

proof fn lemma_four_parts(a: Seq<char>, b: Seq<char>, c: Seq<char>, d: Seq<char>)
    ensures
        seq![a, b] + seq![c, d] == seq![a, b, c, d],
{
    assert(seq![a, b] + seq![c, d] =~= seq![a, b, c, d]);
}

proof fn lemma_one_root(base: Seq<char>, parts: Seq<Seq<char>>)
    ensures
        configs_in(seq![PathPlanView { base, parts }]) == seq![
            PathPlanView { base, parts: parts + seq!["WarpOCA"@, "config.json"@] },
            PathPlanView { base, parts: parts + seq!["WarpOCI"@, "config.json"@] },
            PathPlanView { base, parts: parts + seq!["WarpByob"@, "config.json"@] },
        ],
{
    let root = PathPlanView { base, parts };
    assert(seq![root].drop_last() =~= Seq::empty());
    reveal_with_fuel(configs_in, 2);
    assert(configs_in(seq![root]) =~= configs_under(root));
}

/// Directories that the environment names come before those below the directory of the user, and
/// the first file that exists counts.
pub proof fn lemma_which_file_counts(
    env: PathEnvView,
    named: Seq<char>,
    home: Seq<char>,
    path: PathPlanView,
    paths: Seq<PathPlanView>,
    exist: Seq<bool>,
)
    requires
        !blank(named),
        !blank(home),
        env.home == Some(home),
        env.userprofile is None,
    ensures
        env.appdata == Some(named) ==> support_roots(env, Platform::Windows) == seq![
            PathPlanView { base: trimmed(named), parts: Seq::empty() },
            PathPlanView { base: trimmed(home), parts: seq!["AppData"@, "Roaming"@] },
        ],
        env.xdg_data_home == Some(named) ==> support_roots(env, Platform::Other) == seq![
            PathPlanView { base: trimmed(named), parts: Seq::empty() },
            PathPlanView { base: trimmed(home), parts: seq![".local"@, "share"@] },
        ],
        first_existing(seq![path] + paths, seq![true] + exist) == Some(path),
        first_existing(seq![path] + paths, seq![false] + exist) == first_existing(paths, exist),
        first_existing(Seq::empty(), exist) is None,
{
    if env.appdata == Some(named) {
        assert(support_roots(env, Platform::Windows) =~= seq![
            PathPlanView { base: trimmed(named), parts: Seq::empty() },
            PathPlanView { base: trimmed(home), parts: seq!["AppData"@, "Roaming"@] },
        ]);
    }
    if env.xdg_data_home == Some(named) {
        assert(support_roots(env, Platform::Other) =~= seq![
            PathPlanView { base: trimmed(named), parts: Seq::empty() },
            PathPlanView { base: trimmed(home), parts: seq![".local"@, "share"@] },
        ]);
    }
    assert((seq![path] + paths).skip(1) =~= paths);
    assert((seq![false] + exist).skip(1) =~= exist);
    assert((seq![path] + paths)[0] == path);
    assert((seq![true] + exist)[0] && !(seq![false] + exist)[0]);
}

/// Where the user is told that the key is kept.
pub proof fn lemma_hints(platform: Platform)
    ensures
        platform == Platform::Windows ==> auth_hint(platform)
            == "%USERPROFILE%\\.codex\\auth.json"@,
        platform != Platform::Windows ==> auth_hint(platform) == "~/.codex/auth.json"@,
{
}

} // verus!
