//! Keeping the proxy running, and objects without a server.
use byob_proxy::bytes::{bytes_of_text, valid_text};
use byob_proxy::ids::{current_timestamp, new_id, new_ids, timestamp_of};
use byob_proxy::local_object::{
    created_cloud_object_at, local_owner, personal_permissions_at, server_metadata_at,
    synthetic_server_id, CreateObjectRequest, LocalObjectClient, Moment, ObjectIdType,
    ObjectPermissionUpdateResult, Owner,
};
use byob_proxy::paths::Platform;
use byob_proxy::supervisor::{
    app_support_dir, bundled_helper, choose_helper, codex_auth_place, helper_path,
    is_healthy_response, json_file_has_key, missing_codex_auth, supervise, user_home_variable,
    HelperChoice, LogLine, Named, Place, SupervisorAction, SupervisorEvent, SupervisorStep,
    Variable, HEALTH_REQUEST, PROXY_LISTEN,
};

const NOTHING: Named = Named {
    home_set: false,
    home: false,
    userprofile: false,
    appdata: false,
    xdg_data_home: false,
    codex_home: false,
};

fn parts(place: &Place) -> String {
    place.parts.join("|")
}

#[test]
fn a_healthy_proxy_answers_with_success() {
    assert!(is_healthy_response(&bytes_of_text("HTTP/1.1 200 OK\r\n")));
    assert!(!is_healthy_response(&bytes_of_text("HTTP/1.1 500 No\r\n")));
    assert!(!is_healthy_response(&Vec::new()));
    let mut cut = bytes_of_text("HTTP/1.1 200 ");
    cut.push(0xc3);
    assert!(!is_healthy_response(&cut));
    assert_eq!(valid_text(&vec![0xc3, 0xa4]), Some("\u{e4}".to_string()));
    assert_eq!(valid_text(&vec![0xff]), None);
    assert_eq!(PROXY_LISTEN, "127.0.0.1:1337");
    assert!(HEALTH_REQUEST.starts_with("GET /healthz HTTP/1.1\r\n"));
}

#[test]
fn a_missing_key_is_told() {
    let warning = "WarpOCA did not find Codex CLI auth at ~/.codex/auth.json. Run `codex login` before using Agent Mode.";
    assert_eq!(
        missing_codex_auth(Platform::Other, None, None, None),
        Some(warning.to_string())
    );
    assert_eq!(
        missing_codex_auth(Platform::Other, Some(" "), Some("{}"), Some("no")),
        Some(warning.to_string())
    );
    assert_eq!(missing_codex_auth(Platform::Other, Some("k"), None, None), None);
    let config = r#"{"openai_api_key":"k"}"#;
    assert_eq!(missing_codex_auth(Platform::Other, None, Some(config), None), None);
    let auth = r#"{"OPENAI_API_KEY":"k"}"#;
    assert_eq!(missing_codex_auth(Platform::Other, None, None, Some(auth)), None);
    assert!(!json_file_has_key(Some(r#"{"a":" "}"#), "a"));
    assert!(!json_file_has_key(Some(r#"{"a":1}"#), "a"));
    assert!(!json_file_has_key(None, "a"));
}

#[test]
fn places_are_named_by_variables() {
    let named = Named { home_set: true, home: true, userprofile: true, ..NOTHING };
    assert_eq!(user_home_variable(named, Platform::Windows), Some(Variable::UserProfile));
    assert_eq!(user_home_variable(named, Platform::Other), Some(Variable::Home));
    assert_eq!(user_home_variable(NOTHING, Platform::Windows), None);
    let mac = app_support_dir(named, Platform::MacOs).unwrap();
    assert_eq!(parts(&mac), "Library/Application Support/WarpOCA");
    let windows = app_support_dir(named, Platform::Windows).unwrap();
    assert_eq!(parts(&windows), "AppData|Roaming|WarpOCA");
    let other = app_support_dir(named, Platform::Other).unwrap();
    assert_eq!(parts(&other), ".local|share|WarpOCA");
    let data = Named { appdata: true, xdg_data_home: true, ..named };
    let windows = app_support_dir(data, Platform::Windows).unwrap();
    assert_eq!((windows.variable, parts(&windows)), (Variable::AppData, "WarpOCA".to_string()));
    let other = app_support_dir(data, Platform::Other).unwrap();
    assert_eq!((other.variable, parts(&other)), (Variable::XdgDataHome, "WarpOCA".to_string()));
    let missing = |platform| app_support_dir(NOTHING, platform).map(|_| ());
    assert_eq!(missing(Platform::MacOs), Err("HOME is not set".to_string()));
    assert_eq!(missing(Platform::Windows), Err("USERPROFILE/HOME is not set".to_string()));
    assert_eq!(missing(Platform::Other), Err("HOME is not set".to_string()));
    assert_eq!(parts(&codex_auth_place(named, Platform::Other).unwrap()), ".codex|auth.json");
    let codex = Named { codex_home: true, ..NOTHING };
    assert_eq!(parts(&codex_auth_place(codex, Platform::Other).unwrap()), "auth.json");
    assert_eq!(
        codex_auth_place(NOTHING, Platform::Other).map(|_| ()),
        Err("home directory is not set".to_string())
    );
}

#[test]
fn the_bundled_proxy_comes_first() {
    assert_eq!(choose_helper(true, Err("x".to_string())), Ok(HelperChoice::Bundled));
    assert_eq!(choose_helper(false, Ok(true)), Ok(HelperChoice::Installed));
    assert_eq!(
        choose_helper(false, Ok(false)),
        Err("missing bundled proxy helper".to_string())
    );
    assert_eq!(choose_helper(false, Err("x".to_string())), Err("x".to_string()));
    assert_eq!(bundled_helper(Platform::MacOs).levels_up, 2);
    assert_eq!(bundled_helper(Platform::Windows).parts, vec!["Helpers", "byob_proxy.exe"]);
    assert_eq!(bundled_helper(Platform::Other).missing, "failed to locate install directory");
    assert_eq!(helper_path(Platform::Other, None), "/usr/local/bin:/usr/bin:/bin");
    assert_eq!(helper_path(Platform::Other, Some("/x")), "/x");
    assert_eq!(
        helper_path(Platform::MacOs, Some("/x")),
        "/usr/local/bin:/opt/homebrew/bin:/usr/bin:/bin:/usr/sbin:/sbin"
    );
    assert_eq!(
        helper_path(Platform::Windows, None),
        "C:\\Windows\\System32;C:\\Windows;C:\\Windows\\System32\\WindowsPowerShell\\v1.0"
    );
}

fn next(has_child: bool, event: SupervisorEvent) -> SupervisorStep {
    supervise(has_child, event)
}

#[test]
fn one_process_is_kept() {
    let step = next(true, SupervisorEvent::Healthy);
    assert!(step.has_child && matches!(step.action, SupervisorAction::CheckHealth(5)));
    let step = next(false, SupervisorEvent::Unhealthy);
    assert!(!step.has_child && matches!(step.action, SupervisorAction::StartProxy));
    let step = next(true, SupervisorEvent::Unhealthy);
    assert!(step.has_child && matches!(step.action, SupervisorAction::InspectChild));
    let step = next(true, SupervisorEvent::ChildRunning);
    assert!(step.has_child && matches!(step.action, SupervisorAction::CheckHealth(2)));
    let step = next(true, SupervisorEvent::ChildExited("exit status: 1".to_string()));
    assert!(!step.has_child && matches!(step.action, SupervisorAction::StartProxy));
    assert!(matches!(step.log, Some(LogLine::Warning(line))
        if line == "WarpOCA proxy exited with status exit status: 1"));
    let step = next(true, SupervisorEvent::ChildUnknown("e".to_string()));
    assert!(!step.has_child && matches!(step.action, SupervisorAction::StartProxy));
    assert!(matches!(step.log, Some(LogLine::Warning(line))
        if line == "Unable to inspect WarpOCA proxy process: e"));
    let step = next(false, SupervisorEvent::Started);
    assert!(step.has_child && matches!(step.action, SupervisorAction::CheckHealth(0)));
    assert!(matches!(step.log, Some(LogLine::Info(line))
        if line == "Started bundled WarpOCA proxy"));
    let step = next(false, SupervisorEvent::NotStarted("e".to_string()));
    assert!(!step.has_child && matches!(step.action, SupervisorAction::CheckHealth(5)));
    assert!(matches!(step.log, Some(LogLine::Failure(line))
        if line == "Unable to start bundled WarpOCA proxy: e"));
}

#[test]
fn objects_are_created_without_a_server() {
    let client = LocalObjectClient::new();
    let request = || CreateObjectRequest {
        client_id: "client".to_string(),
        owner: Owner::Team("team".to_string()),
    };
    let created = client.create_workflow(request());
    assert_eq!(created.client_id, "client");
    assert_eq!(created.id_type, ObjectIdType::Workflow);
    assert_eq!(created.server_id.len(), 22);
    assert!(created.server_id.chars().all(|c| c.is_ascii_hexdigit() && !c.is_ascii_uppercase()));
    assert!(created.metadata_ts.seconds > 1_600_000_000);
    assert_eq!(created.revision_and_editor.revision, created.metadata_ts);
    assert!(matches!(&created.permissions.space, Owner::Team(team) if team == "team"));
    assert!(created.permissions.guests.is_empty());
    assert_eq!(client.create_notebook(request()).id_type, ObjectIdType::Notebook);
    assert_eq!(client.create_folder(request()).id_type, ObjectIdType::Folder);
    assert_eq!(
        client.create_generic_string_object(request()).id_type,
        ObjectIdType::GenericStringObject
    );
    let many = client.bulk_create_generic_string_objects(
        &local_owner(),
        &vec!["a".to_string(), "b".to_string()],
    );
    assert_eq!(many.len(), 2);
    assert_eq!(many[1].client_id, "b");
    assert_ne!(many[0].server_id, many[1].server_id);
    assert_ne!(synthetic_server_id(), synthetic_server_id());
}

#[test]
fn changes_of_objects_are_taken() {
    let client = LocalObjectClient::new();
    assert!(client.update_workflow("w", "data", None).last_editor_uid.is_none());
    assert!(client.update_notebook("n", None, None, None).revision.seconds > 0);
    assert!(client.update_folder("f", "name").revision.seconds > 0);
    assert!(client.update_generic_string_object("g", "model", None).revision.seconds > 0);
    let metadata = client.grab_notebook_edit_access("n".to_string());
    assert_eq!(metadata.uid, "n");
    assert_eq!(metadata.revision, metadata.metadata_last_updated_ts);
    assert!(metadata.trashed_ts.is_none() && metadata.current_editor_uid.is_none());
    assert_eq!(client.give_up_notebook_edit_access("n".to_string()).uid, "n");
    assert_eq!(client.untrash_object("o".to_string()).uid, "o");
    assert!(client.fetch_changed_objects().is_empty());
    assert_eq!(
        client.fetch_single_cloud_object("o").map(|_| ()),
        Err("WarpOCA local object store has no remote object fetch".to_string())
    );
    assert!(client.transfer_notebook_owner("n", &local_owner()));
    assert!(client.transfer_workflow_owner("w", &local_owner()));
    assert!(client.transfer_generic_string_object_owner("g", &local_owner()));
    assert!(client.trash_object("o"));
    assert!(client.move_object("o", None, &local_owner()));
    assert_eq!(client.delete_object("o".to_string()), vec!["o"]);
    assert_eq!(client.leave_object("o".to_string()), vec!["o"]);
    assert!(client.empty_trash(&local_owner()).is_empty());
    assert_eq!(
        client.set_object_link_permissions("o", "view"),
        ObjectPermissionUpdateResult::Success
    );
    assert_eq!(
        client.remove_object_link_permissions("o"),
        ObjectPermissionUpdateResult::Success
    );
    assert!(client.add_object_guests("o", &vec![], "view").profiles.is_empty());
    let permissions = client.update_object_guests("o", &vec![], "view");
    assert!(matches!(&permissions.space, Owner::User(user) if user == "warpoca-local"));
    assert!(client.remove_object_guest("o", "guest").anyone_link_sharing.is_none());
    assert!(client.fetch_environment_last_task_run_timestamps().is_empty());
    let at = Moment { seconds: 7, nanos: 8 };
    let history = client.record_object_action(
        "u".to_string(),
        "h".to_string(),
        "run".to_string(),
        at,
        Some("data".to_string()),
    );
    assert_eq!(history.actions.len(), 1);
    assert_eq!(history.actions[0].timestamp, at);
    assert_eq!(history.actions[0].hashed_sqlite_id, "h");
    assert!(!history.actions[0].pending);
    assert!(history.actions[0].processed_at_timestamp.is_some());
}

#[test]
fn objects_are_made_at_a_moment() {
    let now = Moment { seconds: 1, nanos: 2 };
    let permissions = personal_permissions_at(local_owner(), now);
    assert_eq!(permissions.permissions_last_updated_ts, now);
    let object = created_cloud_object_at(
        "c".to_string(),
        ObjectIdType::Folder,
        "s".to_string(),
        now,
        permissions,
    );
    assert_eq!(object.revision_and_editor.revision, now);
    assert_eq!(object.server_id, "s");
    let metadata = server_metadata_at("i".to_string(), Some("f".to_string()), now);
    assert_eq!(metadata.folder_id.as_deref(), Some("f"));
    assert!(!metadata.is_welcome_object);
}

#[test]
fn identifiers_are_fresh() {
    let id = new_id("msg_");
    assert_eq!(id.len(), 40);
    assert_eq!(&id[..4], "msg_");
    assert_eq!(&id[12..13], "-");
    assert_ne!(id, new_id("msg_"));
    let ids = new_ids("tool_", 3);
    assert_eq!(ids.len(), 3);
    assert!(ids.iter().all(|id| id.starts_with("tool_") && id.len() == 41));
    assert!(current_timestamp().unwrap().seconds > 1_600_000_000);
    let timestamp = timestamp_of(5, 6);
    assert_eq!((timestamp.seconds, timestamp.nanos), (5, 6));
}
