//! The state of the extension and the decisions it takes for Zed: where its
//! files lie, how the language server is launched, what it is configured
//! with, and how completions and symbols are labelled.

use vstd::prelude::*;

use crate::json::{keys_distinct, entry_index, lemma_entry_index, lemma_entry_index_bounds, find_entry, is_empty_object, is_single_string_array, single_string_array, JsonValue};
use crate::language_server::{path_of_server_binary, server_binary};
use crate::text::{join_path, joined};

verus! {

/// The operating system that Zed runs on.
#[derive(Debug, Clone, Copy, PartialEq, Eq)]
pub enum Os {
    Mac,
    Linux,
    Windows,
}

/// `s` as `trim_leading_slash_on_windows` leaves it: on Windows, without a
/// leading `/` (Zed hands paths such as `/C:/...` to extensions there).
pub open spec fn without_leading_slash_on(os: Os, s: Seq<char>) -> Seq<char> {
    if os == Os::Windows && s.len() > 0 && s[0] == '/' {
        s.drop_first()
    } else {
        s
    }
}

/// Drops the leading `/` of a path on Windows.
pub fn trim_leading_slash_on_windows(s: String, os: Os) -> (res: String)
    ensures
        res@ == without_leading_slash_on(os, s@),
{
    match os {
        Os::Windows => {
            let n = s.as_str().unicode_len();
            if n > 0 && s.as_str().get_char(0) == '/' {
                s.as_str().substring_char(1, n).to_string()
            } else {
                s
            }
        },
        _ => s,
    }
}

/// The state that the extension keeps between the requests of Zed.
pub struct HaxeExtension {
    /// Where the language server binary lies, once it has been found.
    language_server_binary_path: Option<String>,
    /// The version of the language server last downloaded.
    language_server_version: Option<String>,
    /// The directory that Zed gives the extension for its files.
    working_dir: String,
}

/// The contents of the configuration that the language server gets when
/// the project names none.
pub const DEFAULT_CONFIG_CONTENTS: &'static str = "--class-path .\n--no-output\n";

impl HaxeExtension {
    /// The extension as it starts in `working_dir`, knowing the language
    /// server version that it saved last time, if any.
    pub fn new(working_dir: String, last_version: Option<String>) -> (res: Self)
        ensures
            res@ == (ExtensionView {
                language_server_binary_path: None,
                language_server_version: match last_version {
                    Some(v) => Some(v@),
                    None => None,
                },
                working_dir: working_dir@,
            }),
    {
        HaxeExtension { language_server_binary_path: None, language_server_version: last_version, working_dir }
    }

    /// Returns the path to the extension's working directory.
    pub fn working_dir(&self) -> (res: &str)
        ensures
            res@ == self@.working_dir,
    {
        self.working_dir.as_str()
    }

    /// The version of the language server last downloaded, if any.
    pub fn language_server_version(&self) -> (res: Option<&str>)
        ensures
            match res {
                Some(v) => self@.language_server_version == Some(v@),
                None => self@.language_server_version is None,
            },
    {
        match &self.language_server_version {
            Some(v) => Some(v.as_str()),
            None => None,
        }
    }

    /// Where the language server binary lies, once it has been found.
    pub fn language_server_binary_path(&self) -> (res: Option<&str>)
        ensures
            match res {
                Some(p) => self@.language_server_binary_path == Some(p@),
                None => self@.language_server_binary_path is None,
            },
    {
        match &self.language_server_binary_path {
            Some(p) => Some(p.as_str()),
            None => None,
        }
    }

    /// Where the default configuration of the language server lies.
    pub fn default_config_path(&self) -> (res: String)
        ensures
            res@ == joined(self@.working_dir, "default-config.hxml"@),
    {
        join_path(self.working_dir.as_str(), "default-config.hxml")
    }

    /// Where the version of the last downloaded language server is saved.
    pub fn version_file_path(&self) -> (res: String)
        ensures
            res@ == joined(self@.working_dir, "version.txt"@),
    {
        join_path(self.working_dir.as_str(), "version.txt")
    }
}


/// The mathematical value of the extension's state.
pub struct ExtensionView {
    pub language_server_binary_path: Option<Seq<char>>,
    pub language_server_version: Option<Seq<char>>,
    pub working_dir: Seq<char>,
}

impl View for HaxeExtension {
    type V = ExtensionView;

    closed spec fn view(&self) -> ExtensionView {
        ExtensionView {
            language_server_binary_path: match self.language_server_binary_path {
                Some(p) => Some(p@),
                None => None,
            },
            language_server_version: match self.language_server_version {
                Some(v) => Some(v@),
                None => None,
            },
            working_dir: self.working_dir@,
        }
    }
}

/// What remains to do after the latest language server was fetched.
pub struct DownloadStep {
    pub os: Os,
}

/// What remains to do after it was checked whether the last known version
/// of the language server is still installed.
pub struct FallbackStep {
    pub os: Os,
    pub version: String,
}

/// What remains to do after Node.js was located.
pub struct NodeStep {
    pub server_path: String,
}

/// The command that starts the language server.
pub struct LaunchCommand {
    pub command: String,
    pub args: Vec<String>,
    pub env: Vec<(String, String)>,
}

/// The next piece of outside work while the language server command is
/// worked out, with what to report its outcome to.
pub enum LaunchAction {
    /// Fetch the latest release of the language server, installing it if it
    /// is missing, and report its version or failure to `after_download`.
    Download(DownloadStep),
    /// Write `version` to the file at `path`, ignoring a failure, then
    /// locate Node.js for `node` as `LocateNode` does.
    SaveVersion { path: String, version: String, node: NodeStep },
    /// Tell `after_fallback_check` whether `binary` is a file.
    CheckInstalled { binary: String, fallback: FallbackStep },
    /// Locate Node.js and hand the outcome to `finish_launch`.
    LocateNode(NodeStep),
    /// The language server cannot be started, for this reason.
    Fail(String),
}

/// The mathematical value of a `LaunchAction`.
pub enum LaunchActionView {
    Download { os: Os },
    SaveVersion { path: Seq<char>, version: Seq<char>, server_path: Seq<char> },
    CheckInstalled { binary: Seq<char>, os: Os, version: Seq<char> },
    LocateNode { server_path: Seq<char> },
    Fail { message: Seq<char> },
}

impl View for LaunchAction {
    type V = LaunchActionView;

    open spec fn view(&self) -> LaunchActionView {
        match self {
            LaunchAction::Download(step) => LaunchActionView::Download { os: step.os },
            LaunchAction::SaveVersion { path, version, node } => LaunchActionView::SaveVersion {
                path: path@,
                version: version@,
                server_path: node.server_path@,
            },
            LaunchAction::CheckInstalled { binary, fallback } => LaunchActionView::CheckInstalled {
                binary: binary@,
                os: fallback.os,
                version: fallback.version@,
            },
            LaunchAction::LocateNode(step) => LaunchActionView::LocateNode { server_path: step.server_path@ },
            LaunchAction::Fail(message) => LaunchActionView::Fail { message: message@ },
        }
    }
}

/// The path that Node.js is given to run the given version of the server.
pub open spec fn launch_path(os: Os, working_dir: Seq<char>, version: Seq<char>) -> Seq<char> {
    without_leading_slash_on(os, server_binary(working_dir, version))
}

/// Why the server cannot start when the download failed and no version was
/// ever installed.
pub open spec fn no_known_version_message() -> Seq<char> {
    "Failed to download the language server. Also, no known version installed previously"@
}

/// Why the server cannot start when the download failed and the last known
/// version is gone from the disk.
pub open spec fn missing_fallback_message(version: Seq<char>) -> Seq<char> {
    "Language server version \""@ + version + "\" was set as fallback, but it does not exist on disk"@
}

/// The first step of a launch: reuse the server found before, or fetch it.
pub open spec fn launch_begins(e: ExtensionView, os: Os) -> LaunchActionView {
    match e.language_server_binary_path {
        Some(p) => LaunchActionView::LocateNode { server_path: p },
        None => LaunchActionView::Download { os },
    }
}

/// The state and next step after the latest language server was fetched
/// (`Ok` with its version) or could not be (`Err`).
pub open spec fn launch_after_download(
    e: ExtensionView,
    os: Os,
    outcome: Result<Seq<char>, Seq<char>>,
) -> (ExtensionView, LaunchActionView) {
    match outcome {
        Ok(v) => {
            let p = launch_path(os, e.working_dir, v);
            (
                ExtensionView { language_server_binary_path: Some(p), language_server_version: Some(v), ..e },
                LaunchActionView::SaveVersion { path: joined(e.working_dir, "version.txt"@), version: v, server_path: p },
            )
        },
        Err(_) => match e.language_server_version {
            Some(v) => (e, LaunchActionView::CheckInstalled { binary: server_binary(e.working_dir, v), os, version: v }),
            None => (e, LaunchActionView::Fail { message: no_known_version_message() }),
        },
    }
}

/// The state and next step once it is known whether the last known version
/// is installed.
pub open spec fn launch_after_fallback_check(
    e: ExtensionView,
    os: Os,
    version: Seq<char>,
    installed: bool,
) -> (ExtensionView, LaunchActionView) {
    if installed {
        let p = launch_path(os, e.working_dir, version);
        (
            ExtensionView { language_server_binary_path: Some(p), ..e },
            LaunchActionView::LocateNode { server_path: p },
        )
    } else {
        (e, LaunchActionView::Fail { message: missing_fallback_message(version) })
    }
}

impl HaxeExtension {
    /// Starts working out the command of the language server.
    pub fn begin_launch(&self, os: Os) -> (res: LaunchAction)
        ensures
            res@ == launch_begins(self@, os),
    {
        match &self.language_server_binary_path {
            Some(path) => LaunchAction::LocateNode(NodeStep { server_path: path.clone() }),
            None => LaunchAction::Download(DownloadStep { os }),
        }
    }

    /// Goes on once the latest release was fetched or could not be.
    pub fn after_download(&mut self, step: DownloadStep, outcome: Result<String, String>) -> (res: LaunchAction)
        ensures
            (final(self)@, res@) == launch_after_download(
                old(self)@,
                step.os,
                match outcome {
                    Ok(v) => Ok(v@),
                    Err(e) => Err(e@),
                },
            ),
    {
        match outcome {
            Ok(version) => {
                let binary = path_of_server_binary(self, version.as_str());
                let path = trim_leading_slash_on_windows(binary, step.os);
                let version_file = self.version_file_path();
                self.language_server_version = Some(version.clone());
                self.language_server_binary_path = Some(path.clone());
                LaunchAction::SaveVersion { path: version_file, version, node: NodeStep { server_path: path } }
            },
            Err(_) => match &self.language_server_version {
                Some(version) => LaunchAction::CheckInstalled {
                    binary: path_of_server_binary(self, version.as_str()),
                    fallback: FallbackStep { os: step.os, version: version.clone() },
                },
                None => LaunchAction::Fail(
                    "Failed to download the language server. Also, no known version installed previously".to_string(),
                ),
            },
        }
    }

    /// Goes on once it is known whether the last known version is installed.
    pub fn after_fallback_check(&mut self, step: FallbackStep, installed: bool) -> (res: LaunchAction)
        ensures
            (final(self)@, res@) == launch_after_fallback_check(old(self)@, step.os, step.version@, installed),
    {
        if installed {
            let binary = path_of_server_binary(self, step.version.as_str());
            let path = trim_leading_slash_on_windows(binary, step.os);
            self.language_server_binary_path = Some(path.clone());
            LaunchAction::LocateNode(NodeStep { server_path: path })
        } else {
            let mut message = "Language server version \"".to_string();
            message.append(step.version.as_str());
            message.append("\" was set as fallback, but it does not exist on disk");
            LaunchAction::Fail(message)
        }
    }
}

/// The command that runs the language server with Node.js, or the reason
/// why Node.js could not be located.
pub fn finish_launch(step: NodeStep, node: Result<String, String>) -> (res: Result<LaunchCommand, String>)
    ensures
        match node {
            Ok(n) => res matches Ok(c) && c.command == n && c.args@.len() == 1 && c.args@[0]@
                == step.server_path@ && c.env@.len() == 0,
            Err(e) => res == Err::<LaunchCommand, String>(e),
        },
{
    match node {
        Ok(command) => {
            let mut args: Vec<String> = Vec::new();
            args.push(step.server_path);
            Ok(LaunchCommand { command, args, env: Vec::new() })
        },
        Err(e) => Err(e),
    }
}


/// Once the latest language server was fetched, every later launch runs the
/// same server without fetching it again.
pub proof fn law_downloaded_server_is_reused(e: ExtensionView, os: Os, version: Seq<char>, later_os: Os)
    ensures
        ({
            let (after, action) = launch_after_download(e, os, Ok(version));
            let server_path = launch_path(os, e.working_dir, version);
            &&& action matches LaunchActionView::SaveVersion { server_path: p, .. } && p == server_path
            &&& launch_begins(after, later_os) == LaunchActionView::LocateNode { server_path }
            &&& after.language_server_version == Some(version)
        }),
{
}

/// Once the last known version was found installed after a failed download,
/// every later launch runs it without fetching anything.
pub proof fn law_fallback_server_is_reused(e: ExtensionView, os: Os, version: Seq<char>, later_os: Os)
    ensures
        ({
            let (after, action) = launch_after_fallback_check(e, os, version, true);
            &&& action == LaunchActionView::LocateNode { server_path: launch_path(os, e.working_dir, version) }
            &&& launch_begins(after, later_os) == action
        }),
{
}

/// A failed download changes nothing in the state, and it is only followed
/// by a check of the last known version, when there is one; without one,
/// the launch fails saying that no version was installed before.
pub proof fn law_failed_download_keeps_state(e: ExtensionView, os: Os, error: Seq<char>)
    ensures
        ({
            let (after, action) = launch_after_download(e, os, Err(error));
            &&& after == e
            &&& (action is CheckInstalled <==> e.language_server_version is Some)
            &&& (action is Fail <==> e.language_server_version is None)
            &&& e.language_server_version is None ==> action == (LaunchActionView::Fail {
                message: "Failed to download the language server. Also, no known version installed previously"@,
            })
        }),
{
}

/// When the last known version is not installed either, the state stays as
/// it was and the launch fails naming that version.
pub proof fn law_missing_fallback_fails(e: ExtensionView, os: Os, version: Seq<char>)
    ensures
        launch_after_fallback_check(e, os, version, false) == (e, LaunchActionView::Fail {
            message: "Language server version \""@ + version + "\" was set as fallback, but it does not exist on disk"@,
        }),
{
}

/// No step of a launch moves the working directory.
pub proof fn law_working_dir_never_changes(
    e: ExtensionView,
    os: Os,
    outcome: Result<Seq<char>, Seq<char>>,
    version: Seq<char>,
    installed: bool,
)
    ensures
        launch_after_download(e, os, outcome).0.working_dir == e.working_dir,
        launch_after_fallback_check(e, os, version, installed).0.working_dir == e.working_dir,
{
}

/// A state that remembers its server never asks for a download.
pub proof fn law_remembered_server_needs_no_download(e: ExtensionView, os: Os)
    requires
        e.language_server_binary_path is Some,
    ensures
        launch_begins(e, os) == (LaunchActionView::LocateNode { server_path: e.language_server_binary_path->0 }),
{
}


/// Node.js runs the server script where the download put it. A launch of an
/// extension that has found no server yet fetches it for the system Zed
/// runs on; after that download, or after finding the last known version
/// installed, the path handed to Node.js is the path of `server.js` under
/// the working directory (and a download saves its version to `version.txt`
/// there). On macOS and Linux it is that path exactly; on
/// Windows only its leading `/`, if any, is dropped.
pub proof fn law_launched_script_is_server_js(
    e: ExtensionView,
    os: Os,
    version: Seq<char>,
    error: Seq<char>,
)
    ensures
        e.language_server_binary_path is None ==> launch_begins(e, os) == (LaunchActionView::Download { os }),
        ({
            let script = server_binary(e.working_dir, version);
            let launched = if os == Os::Windows && script.len() > 0 && script[0] == '/' {
                script.drop_first()
            } else {
                script
            };
            &&& os != Os::Windows ==> launched == script
            &&& launch_after_download(e, os, Ok(version)).1 == (LaunchActionView::SaveVersion {
                path: joined(e.working_dir, "version.txt"@),
                version,
                server_path: launched,
            })
            &&& launch_after_download(e, os, Ok(version)).0.language_server_binary_path == Some(launched)
            &&& launch_after_fallback_check(e, os, version, true).1 == (LaunchActionView::LocateNode {
                server_path: launched,
            })
            &&& launch_after_fallback_check(e, os, version, true).0.language_server_binary_path == Some(launched)
            &&& e.language_server_version == Some(version) ==> launch_after_download(e, os, Err(error)).1 == (
            LaunchActionView::CheckInstalled { binary: script, os, version })
        }),
{
}

/// The configuration file that the language server is pointed at when the
/// user's options name none.
pub open spec fn default_display_argument(os: Os, working_dir: Seq<char>) -> Seq<char> {
    without_leading_slash_on(os, joined(working_dir, "default-config.hxml"@))
}

/// Options of the language server that can be completed: none given, JSON
/// `null` or an object (indexing any other value by a key panics), whose
/// names are distinct as in any JSON map.
pub open spec fn completable_options(options: Option<JsonValue>) -> bool {
    match options {
        None => true,
        Some(JsonValue::Null) => true,
        Some(JsonValue::Object(entries)) => keys_distinct(entries@),
        _ => false,
    }
}

/// `res` is `options` with `displayArguments` set to `[argument]` unless it
/// holds something other than `null`: an absent or `null` value becomes an
/// object with that one entry; in an object, a missing entry is added at the
/// end and a `null` one is replaced in place. The order is that of the
/// library's entries; a `serde_json` map made from them orders its keys
/// itself.
pub open spec fn completes_options(options: Option<JsonValue>, argument: Seq<char>, res: JsonValue) -> bool {
    let key = "displayArguments"@;
    match options {
        Some(JsonValue::Object(entries)) => {
            let i = entry_index(entries@, key);
            if i == entries@.len() {
                res matches JsonValue::Object(out) && out@.len() == entries@.len() + 1 && out@.take(
                    entries@.len() as int,
                ) == entries@ && out@.last().0@ == key && is_single_string_array(out@.last().1, argument)
            } else if entries@[i].1 is Null {
                res matches JsonValue::Object(out) && out@.len() == entries@.len() && (forall|j: int|
                    0 <= j < out@.len() && j != i ==> out@[j] == entries@[j]) && out@[i].0@ == key
                    && is_single_string_array(out@[i].1, argument)
            } else {
                res == JsonValue::Object(entries)
            }
        },
        _ => res matches JsonValue::Object(out) && out@.len() == 1 && out@[0].0@ == key && is_single_string_array(
            out@[0].1,
            argument,
        ),
    }
}

impl HaxeExtension {
    /// The initialization options of the language server: the user's, or an
    /// empty object, with `displayArguments` pointing at the default
    /// configuration unless the user set them (the server needs some).
    pub fn initialization_options(&self, options: Option<JsonValue>, os: Os) -> (res: JsonValue)
        requires
            completable_options(options),
        ensures
            completes_options(options, default_display_argument(os, self@.working_dir), res),
            res matches JsonValue::Object(out) && keys_distinct(out@),
    {
        let argument = trim_leading_slash_on_windows(self.default_config_path(), os);
        let key = "displayArguments".to_string();
        match options {
            Some(JsonValue::Object(mut entries)) => {
                let i = find_entry(&entries, &key);
                proof {
                    lemma_entry_index_bounds(entries@, key@);
                }
                if i == entries.len() {
                    let ghost before = entries@;
                    entries.push((key, single_string_array(argument)));
                    assert(entries@.take(before.len() as int) =~= before);
                    assert(keys_distinct(entries@)) by {
                        assert forall|a: int, b: int| 0 <= a < b < entries@.len() implies entries@[a].0@
                            != entries@[b].0@ by {
                            if b == before.len() {
                                assert(entries@[a] == before[a]);
                            } else {
                                assert(entries@[a] == before[a] && entries@[b] == before[b]);
                            }
                        }
                    }
                    JsonValue::Object(entries)
                } else {
                    let is_null = match &entries[i].1 {
                        JsonValue::Null => true,
                        _ => false,
                    };
                    if is_null {
                        let ghost before = entries@;
                        entries.set(i, (key, single_string_array(argument)));
                        assert(keys_distinct(entries@)) by {
                            assert forall|a: int, b: int| 0 <= a < b < entries@.len() implies entries@[a].0@
                                != entries@[b].0@ by {
                                assert(a != i ==> entries@[a] == before[a]);
                                assert(b != i ==> entries@[b] == before[b]);
                                assert(entries@[i as int].0@ == before[i as int].0@);
                            }
                        }
                    }
                    JsonValue::Object(entries)
                }
            },
            _ => {
                let mut entries: Vec<(String, JsonValue)> = Vec::new();
                entries.push((key, single_string_array(argument)));
                JsonValue::Object(entries)
            },
        }
    }
}

/// The workspace configuration of the language server: the user's settings,
/// or an empty object.
pub fn workspace_configuration(settings: Option<JsonValue>) -> (res: JsonValue)
    ensures
        match settings {
            Some(v) => res == v,
            None => is_empty_object(res),
        },
{
    match settings {
        Some(v) => v,
        None => JsonValue::Object(Vec::new()),
    }
}

/// Whatever the user's options, the language server is started with some
/// display arguments: the first `displayArguments` entry exists and is not
/// `null`.
pub proof fn law_display_arguments_always_set(options: Option<JsonValue>, argument: Seq<char>, res: JsonValue)
    requires
        completable_options(options),
        completes_options(options, argument, res),
    ensures
        res matches JsonValue::Object(out) && entry_index(out@, "displayArguments"@) < out@.len() && !(out@[entry_index(
            out@,
            "displayArguments"@,
        )].1 is Null),
{
    let key = "displayArguments"@;
    match options {
        Some(JsonValue::Object(entries)) => {
            lemma_entry_index_bounds(entries@, key);
            let i = entry_index(entries@, key);
            if let JsonValue::Object(out) = res {
                if i == entries@.len() {
                    assert forall|j: int| 0 <= j < i implies out@[j].0@ != key by {
                        assert(out@[j] == out@.take(entries@.len() as int)[j]);
                    }
                    lemma_entry_index(out@, key, i);
                } else if entries@[i].1 is Null {
                    lemma_entry_index(out@, key, i);
                }
            }
        },
        _ => {
            if let JsonValue::Object(out) = res {
                lemma_entry_index(out@, key, 0);
            }
        },
    }
}

/// The default display argument is the default configuration file under
/// the working directory: that path exactly on macOS and Linux, and on
/// Windows that path without its leading `/`, if any. Options that the user
/// left out or set to `null` become an object whose one entry points
/// `displayArguments` at it.
pub proof fn law_default_display_argument_is_config_file(
    options: Option<JsonValue>,
    os: Os,
    working_dir: Seq<char>,
    res: JsonValue,
)
    requires
        completable_options(options),
        completes_options(options, default_display_argument(os, working_dir), res),
    ensures
        ({
            let file = joined(working_dir, "default-config.hxml"@);
            let argument = if os == Os::Windows && file.len() > 0 && file[0] == '/' {
                file.drop_first()
            } else {
                file
            };
            &&& os != Os::Windows ==> default_display_argument(os, working_dir) == file
            &&& default_display_argument(os, working_dir) == argument
            &&& (options is None || options == Some(JsonValue::Null)) ==> (res matches JsonValue::Object(out)
                && out@.len() == 1 && out@[0].0@ == "displayArguments"@ && is_single_string_array(out@[0].1, argument))
        }),
{
}

/// The user's own options are kept: each entry of their object other than
/// `displayArguments` stays where it was, with its value, and display
/// arguments that the user set to something other than `null` leave the
/// options exactly as the user wrote them.
pub proof fn law_user_options_kept(options: Option<JsonValue>, argument: Seq<char>, res: JsonValue)
    requires
        completable_options(options),
        completes_options(options, argument, res),
    ensures
        options matches Some(JsonValue::Object(entries)) ==> (res matches JsonValue::Object(out) && out@.len()
            >= entries@.len() && forall|j: int|
            0 <= j < entries@.len() && entries@[j].0@ != "displayArguments"@ ==> out@[j] == entries@[j]),
        options matches Some(JsonValue::Object(entries)) ==> forall|j: int|
            0 <= j < entries@.len() && entries@[j].0@ == "displayArguments"@ && !(entries@[j].1 is Null) ==> res
                == JsonValue::Object(entries),
{
    let key = "displayArguments"@;
    if let Some(JsonValue::Object(entries)) = options {
        lemma_entry_index_bounds(entries@, key);
        let i = entry_index(entries@, key);
        if let JsonValue::Object(out) = res {
            if i == entries@.len() {
                assert forall|j: int| 0 <= j < entries@.len() implies out@[j] == entries@[j] by {
                    assert(out@[j] == out@.take(entries@.len() as int)[j]);
                }
            }
        }
        assert forall|j: int|
            0 <= j < entries@.len() && entries@[j].0@ == key && !(entries@[j].1 is Null) implies res
                == JsonValue::Object(entries) by {
            assert(j == i);
        }
    }
}

} // verus!
