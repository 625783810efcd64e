use zed_haxe::haxelib::{installed_libraries_from_output, installed_libraries_in, parse_version_string, LibraryVersion};

fn haxelib(v: &str) -> LibraryVersion {
    LibraryVersion::Haxelib { semver: v.to_string() }
}

fn lookup<'a>(table: &'a [(String, LibraryVersion)], name: &str) -> Option<&'a LibraryVersion> {
    table.iter().find(|(n, _)| n == name).map(|(_, v)| v)
}

#[test]
fn git_in_any_case_is_a_git_checkout() {
    assert_eq!(parse_version_string("git"), LibraryVersion::Git);
    assert_eq!(parse_version_string("GIT"), LibraryVersion::Git);
    assert_eq!(parse_version_string("gIt"), LibraryVersion::Git);
}

#[test]
fn dev_prefix_names_a_directory() {
    assert_eq!(
        parse_version_string("dev:/home/me/lib"),
        LibraryVersion::Dev { path: "/home/me/lib".to_string() }
    );
    assert_eq!(parse_version_string("dev:"), LibraryVersion::Dev { path: String::new() });
}

#[test]
fn other_texts_are_registry_versions() {
    assert_eq!(parse_version_string("4.3.1"), haxelib("4.3.1"));
    assert_eq!(parse_version_string("gitx"), haxelib("gitx"));
    assert_eq!(parse_version_string("gi"), haxelib("gi"));
    assert_eq!(parse_version_string("Dev:x"), haxelib("Dev:x"));
    assert_eq!(parse_version_string(""), haxelib(""));
}

#[test]
fn listing_reports_bracketed_versions() {
    let listing = "hxcpp: 4.2.1 [4.3.2]\nlime: [git]\nmylib: 0.1.0 [dev:/src/mylib]\n";
    let table = installed_libraries_in(listing);
    assert_eq!(table.len(), 3);
    assert_eq!(lookup(&table, "hxcpp"), Some(&haxelib("4.3.2")));
    assert_eq!(lookup(&table, "lime"), Some(&LibraryVersion::Git));
    assert_eq!(
        lookup(&table, "mylib"),
        Some(&LibraryVersion::Dev { path: "/src/mylib".to_string() })
    );
}

#[test]
fn lines_without_colon_or_brackets_report_nothing() {
    let listing = "no colon here [1.0]\nbare: 1.0\nempty: []\nok: [2.0]";
    let table = installed_libraries_in(listing);
    assert_eq!(table.len(), 1);
    assert_eq!(lookup(&table, "ok"), Some(&haxelib("2.0")));
}

#[test]
fn leftmost_bracket_wins() {
    let table = installed_libraries_in("a: [1.0] [2.0]\nb: [[x]\nc: [] [3]");
    assert_eq!(lookup(&table, "a"), Some(&haxelib("1.0")));
    assert_eq!(lookup(&table, "b"), Some(&haxelib("[x")));
    assert_eq!(lookup(&table, "c"), Some(&haxelib("3")));
}

#[test]
fn later_lines_override_earlier_ones() {
    let table = installed_libraries_in("a: [1.0]\nb: [git]\na: [2.0]\r\n");
    assert_eq!(table.len(), 2);
    assert_eq!(lookup(&table, "a"), Some(&haxelib("2.0")));
    assert_eq!(lookup(&table, "b"), Some(&LibraryVersion::Git));
}

#[test]
fn name_is_text_before_first_colon() {
    let table = installed_libraries_in(" spaced : x: [1]");
    assert_eq!(table.len(), 1);
    assert_eq!(table[0].0, " spaced ");
}

#[test]
fn process_output_is_decoded_leniently() {
    let table = installed_libraries_from_output(b"a: [1.0]\nb\xff: [2.0]\n");
    assert_eq!(table.len(), 2);
    assert_eq!(lookup(&table, "a"), Some(&haxelib("1.0")));
    assert_eq!(lookup(&table, "b\u{fffd}"), Some(&haxelib("2.0")));
    assert!(installed_libraries_from_output(b"").is_empty());
}
