use zed_haxe::extension::HaxeExtension;
use zed_haxe::http::{HttpMethod, RedirectPolicy};
use zed_haxe::language_server::{
    after_create_dir, after_fetch, after_fetch_binary, after_install_check, after_release, after_save_binary,
    path_of_server_binary, path_of_server_dir, server_asset, server_download_plan, server_download_request,
    InstallStep, InstallationStatus, ReleaseAsset, ReleaseStep, STATUS_WHILE_CHECKING, USER_AGENT,
};

fn asset(name: &str) -> ReleaseAsset {
    ReleaseAsset { name: name.to_string(), download_url: format!("https://example.org/{name}") }
}

#[test]
fn server_lies_under_the_working_dir() {
    let ext = HaxeExtension::new("/work".to_string(), None);
    assert_eq!(path_of_server_dir(&ext, "1.2.3"), "/work/language-server/1.2.3");
    assert_eq!(path_of_server_binary(&ext, "1.2.3"), "/work/language-server/1.2.3/server.js");
}

#[test]
fn absolute_version_replaces_the_directory() {
    let ext = HaxeExtension::new("/work".to_string(), None);
    assert_eq!(path_of_server_binary(&ext, "/elsewhere"), "/elsewhere/server.js");
}

#[test]
fn first_server_asset_is_chosen() {
    let assets = vec![asset("readme.md"), asset("server.js"), asset("server.js")];
    assert_eq!(server_asset(&assets), Some(1));
    assert_eq!(server_asset(&vec![asset("other")]), None);
    assert_eq!(server_asset(&vec![]), None);
}

#[test]
fn download_request_follows_a_few_redirects() {
    let request = server_download_request("https://example.org/server.js");
    assert_eq!(request.method, HttpMethod::Get);
    assert_eq!(request.url, "https://example.org/server.js");
    assert_eq!(request.headers, vec![("user-agent".to_string(), USER_AGENT.to_string())]);
    assert_eq!(USER_AGENT, "Zed extension for Haxe v0.2");
    assert!(request.body.is_none());
    assert_eq!(request.redirect_policy, RedirectPolicy::FollowLimit(5));
}

#[test]
fn release_leads_to_install_check_of_its_server_asset() {
    let assets = vec![asset("readme.md"), asset("server.js")];
    match after_release(Ok(("1.4.0".to_string(), assets))) {
        ReleaseStep::CheckInstalled { status, version, url } => {
            assert_eq!(status, InstallationStatus::Idle);
            assert_eq!(version, "1.4.0");
            assert_eq!(url, "https://example.org/server.js");
        }
        ReleaseStep::Fail(_) => panic!("the release is usable"),
    }
}

#[test]
fn failed_release_query_is_passed_on() {
    match after_release(Err("rate limited".to_string())) {
        ReleaseStep::Fail(e) => assert_eq!(e, "rate limited"),
        _ => panic!("the query failed"),
    }
}

#[test]
fn installed_version_is_not_downloaded_again() {
    match after_install_check("1.4.0".to_string(), "u".to_string(), true) {
        InstallStep::Done(v) => assert_eq!(v, "1.4.0"),
        _ => panic!("nothing to download"),
    }
    match after_install_check("1.4.0".to_string(), "u".to_string(), false) {
        InstallStep::Download { url, version } => {
            assert_eq!(url, "u");
            assert_eq!(version, "1.4.0");
        }
        _ => panic!("a missing version is downloaded"),
    }
}

#[test]
fn fetch_outcome_gives_version_or_error() {
    assert_eq!(after_fetch("1.4.0".to_string(), Ok(())), Ok("1.4.0".to_string()));
    assert_eq!(after_fetch("1.4.0".to_string(), Err("disk full".to_string())), Err("disk full".to_string()));
}

#[test]
fn download_plan_puts_the_script_in_its_version_directory() {
    let ext = HaxeExtension::new("/work".to_string(), None);
    let plan = server_download_plan(&ext, "https://example.org/server.js", "1.4.0");
    assert_eq!(plan.dir, "/work/language-server/1.4.0");
    assert_eq!(plan.binary, "/work/language-server/1.4.0/server.js");
    assert_eq!(plan.request.url, "https://example.org/server.js");
    assert_eq!(plan.request.redirect_policy, RedirectPolicy::FollowLimit(5));
}

#[test]
fn statuses_follow_the_download() {
    assert_eq!(STATUS_WHILE_CHECKING, InstallationStatus::CheckingForUpdate);
    assert_eq!(after_create_dir(Ok(())), Ok(InstallationStatus::Downloading));
    assert_eq!(after_save_binary(Ok(())), Ok(InstallationStatus::Idle));
    assert_eq!(after_fetch_binary(Ok(vec![1, 2])), Ok(vec![1, 2]));
}

#[test]
fn download_failures_are_explained() {
    assert_eq!(
        after_create_dir(Err("PermissionDenied".to_string())),
        Err("Tried to ensure a directory for the language server exists before downloading it, but could not create it: PermissionDenied".to_string())
    );
    assert_eq!(
        after_fetch_binary(Err("\"timeout\"".to_string())),
        Err("Tried to fetch the language server binary, but something happened: \"timeout\"".to_string())
    );
    assert_eq!(
        after_save_binary(Err("disk full".to_string())),
        Err("Could not save the language server binary to disk: disk full".to_string())
    );
}
