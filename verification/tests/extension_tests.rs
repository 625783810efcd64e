use zed_haxe::extension::{
    finish_launch, trim_leading_slash_on_windows, workspace_configuration, HaxeExtension, LaunchAction, NodeStep, Os,
    DEFAULT_CONFIG_CONTENTS,
};
use zed_haxe::json::JsonValue;

fn extension(dir: &str, version: Option<&str>) -> HaxeExtension {
    HaxeExtension::new(dir.to_string(), version.map(|v| v.to_string()))
}

fn single_string(v: &JsonValue) -> Option<&str> {
    match v {
        JsonValue::Array(items) if items.len() == 1 => match &items[0] {
            JsonValue::Str(s) => Some(s.as_str()),
            _ => None,
        },
        _ => None,
    }
}

#[test]
fn new_extension_knows_no_server_yet() {
    let ext = extension("/work", Some("1.0.0"));
    assert_eq!(ext.working_dir(), "/work");
    assert_eq!(ext.language_server_version(), Some("1.0.0"));
    assert!(ext.language_server_binary_path().is_none());
}

#[test]
fn files_lie_in_the_working_dir() {
    let ext = extension("/work", None);
    assert_eq!(ext.default_config_path(), "/work/default-config.hxml");
    assert_eq!(ext.version_file_path(), "/work/version.txt");
    assert_eq!(DEFAULT_CONFIG_CONTENTS, "--class-path .\n--no-output\n");
}

#[test]
fn leading_slash_is_dropped_on_windows_only() {
    assert_eq!(trim_leading_slash_on_windows("/C:/x".to_string(), Os::Windows), "C:/x");
    assert_eq!(trim_leading_slash_on_windows("//x".to_string(), Os::Windows), "/x");
    assert_eq!(trim_leading_slash_on_windows("C:/x".to_string(), Os::Windows), "C:/x");
    assert_eq!(trim_leading_slash_on_windows("".to_string(), Os::Windows), "");
    assert_eq!(trim_leading_slash_on_windows("/home/x".to_string(), Os::Linux), "/home/x");
    assert_eq!(trim_leading_slash_on_windows("/Users/x".to_string(), Os::Mac), "/Users/x");
}

#[test]
fn downloaded_server_is_saved_and_reused() {
    let mut ext = extension("/C:/work", None);
    let step = match ext.begin_launch(Os::Windows) {
        LaunchAction::Download(step) => step,
        _ => panic!("a fresh extension downloads the server"),
    };
    let node = match ext.after_download(step, Ok("2.1.0".to_string())) {
        LaunchAction::SaveVersion { path, version, node } => {
            assert_eq!(path, "/C:/work/version.txt");
            assert_eq!(version, "2.1.0");
            node
        },
        _ => panic!("a downloaded version is saved"),
    };
    assert_eq!(node.server_path, "C:/work/language-server/2.1.0/server.js");
    assert_eq!(ext.language_server_version(), Some("2.1.0"));
    assert_eq!(ext.language_server_binary_path(), Some("C:/work/language-server/2.1.0/server.js"));
    match ext.begin_launch(Os::Windows) {
        LaunchAction::LocateNode(step) => assert_eq!(step.server_path, node.server_path),
        _ => panic!("the server found before is reused"),
    }
    let command = finish_launch(node, Ok("/bin/node".to_string())).unwrap();
    assert_eq!(command.command, "/bin/node");
    assert_eq!(command.args, vec!["C:/work/language-server/2.1.0/server.js".to_string()]);
    assert!(command.env.is_empty());
}

#[test]
fn failed_download_falls_back_to_installed_version() {
    let mut ext = extension("/work", Some("1.0.0"));
    let step = match ext.begin_launch(Os::Linux) {
        LaunchAction::Download(step) => step,
        _ => panic!("no server found yet"),
    };
    let fallback = match ext.after_download(step, Err("offline".to_string())) {
        LaunchAction::CheckInstalled { binary, fallback } => {
            assert_eq!(binary, "/work/language-server/1.0.0/server.js");
            fallback
        },
        _ => panic!("the known version is checked"),
    };
    assert!(ext.language_server_binary_path().is_none());
    assert_eq!(ext.language_server_version(), Some("1.0.0"));
    match ext.after_fallback_check(fallback, true) {
        LaunchAction::LocateNode(step) => assert_eq!(step.server_path, "/work/language-server/1.0.0/server.js"),
        _ => panic!("an installed fallback is used"),
    }
    assert_eq!(ext.language_server_binary_path(), Some("/work/language-server/1.0.0/server.js"));
    assert_eq!(ext.language_server_version(), Some("1.0.0"));
    match ext.begin_launch(Os::Linux) {
        LaunchAction::LocateNode(step) => assert_eq!(step.server_path, "/work/language-server/1.0.0/server.js"),
        _ => panic!("the fallback found before is reused"),
    }
}

#[test]
fn missing_fallback_fails() {
    let mut ext = extension("/work", Some("1.0.0"));
    let step = match ext.begin_launch(Os::Mac) {
        LaunchAction::Download(step) => step,
        _ => panic!(),
    };
    let fallback = match ext.after_download(step, Err("offline".to_string())) {
        LaunchAction::CheckInstalled { fallback, .. } => fallback,
        _ => panic!(),
    };
    match ext.after_fallback_check(fallback, false) {
        LaunchAction::Fail(message) => assert_eq!(
            message,
            "Language server version \"1.0.0\" was set as fallback, but it does not exist on disk"
        ),
        _ => panic!("a missing fallback fails"),
    }
    assert!(ext.language_server_binary_path().is_none());
}

#[test]
fn failed_download_without_known_version_fails() {
    let mut ext = extension("/work", None);
    let step = match ext.begin_launch(Os::Linux) {
        LaunchAction::Download(step) => step,
        _ => panic!(),
    };
    match ext.after_download(step, Err("offline".to_string())) {
        LaunchAction::Fail(message) => assert_eq!(
            message,
            "Failed to download the language server. Also, no known version installed previously"
        ),
        _ => panic!("nothing to fall back to"),
    }
}

#[test]
fn node_failure_is_passed_on() {
    let step = NodeStep { server_path: "/s.js".to_string() };
    assert_eq!(finish_launch(step, Err("no node".to_string())).err(), Some("no node".to_string()));
}

#[test]
fn missing_options_get_default_display_arguments() {
    let ext = extension("/work", None);
    for options in [None, Some(JsonValue::Null)] {
        match ext.initialization_options(options, Os::Linux) {
            JsonValue::Object(entries) => {
                assert_eq!(entries.len(), 1);
                assert_eq!(entries[0].0, "displayArguments");
                assert_eq!(single_string(&entries[0].1), Some("/work/default-config.hxml"));
            },
            other => panic!("expected an object, got {:?}", other),
        }
    }
}

#[test]
fn user_options_keep_their_entries() {
    let ext = extension("/C:/work", None);
    let options = JsonValue::Object(vec![("other".to_string(), JsonValue::Bool(true))]);
    match ext.initialization_options(Some(options), Os::Windows) {
        JsonValue::Object(entries) => {
            assert_eq!(entries.len(), 2);
            assert_eq!(entries[0].0, "other");
            assert!(matches!(entries[0].1, JsonValue::Bool(true)));
            assert_eq!(entries[1].0, "displayArguments");
            assert_eq!(single_string(&entries[1].1), Some("C:/work/default-config.hxml"));
        },
        other => panic!("expected an object, got {:?}", other),
    }
}

#[test]
fn null_display_arguments_are_replaced_in_place() {
    let ext = extension("/work", None);
    let options = JsonValue::Object(vec![
        ("displayArguments".to_string(), JsonValue::Null),
        ("x".to_string(), JsonValue::Number("1".to_string())),
    ]);
    match ext.initialization_options(Some(options), Os::Linux) {
        JsonValue::Object(entries) => {
            assert_eq!(entries.len(), 2);
            assert_eq!(entries[0].0, "displayArguments");
            assert_eq!(single_string(&entries[0].1), Some("/work/default-config.hxml"));
            assert!(matches!(&entries[1].1, JsonValue::Number(n) if n == "1"));
        },
        other => panic!("expected an object, got {:?}", other),
    }
}

#[test]
fn user_display_arguments_are_kept() {
    let ext = extension("/work", None);
    let options = JsonValue::Object(vec![(
        "displayArguments".to_string(),
        JsonValue::Array(vec![JsonValue::Str("DevEnv.hxml".to_string())]),
    )]);
    match ext.initialization_options(Some(options), Os::Linux) {
        JsonValue::Object(entries) => {
            assert_eq!(entries.len(), 1);
            assert_eq!(single_string(&entries[0].1), Some("DevEnv.hxml"));
        },
        other => panic!("expected an object, got {:?}", other),
    }
}

#[test]
fn workspace_configuration_defaults_to_empty_object() {
    assert!(matches!(workspace_configuration(None), JsonValue::Object(e) if e.is_empty()));
    assert!(matches!(workspace_configuration(Some(JsonValue::Bool(false))), JsonValue::Bool(false)));
}
