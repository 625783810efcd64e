//! Where the language server is installed, and how it is fetched.

use vstd::prelude::*;

use crate::extension::HaxeExtension;
use crate::http::{header, header_texts, HttpMethod, HttpRequest, RedirectPolicy};
use crate::text::{join_path, joined};

verus! {

/// The directory that holds the given version of the language server.
pub open spec fn server_dir(working_dir: Seq<char>, version: Seq<char>) -> Seq<char> {
    joined(joined(working_dir, "language-server"@), version)
}

/// The script of the given version of the language server.
pub open spec fn server_binary(working_dir: Seq<char>, version: Seq<char>) -> Seq<char> {
    joined(server_dir(working_dir, version), "server.js"@)
}

/// The directory that holds the given version of the language server.
pub fn path_of_server_dir(extension: &HaxeExtension, version: &str) -> (res: String)
    ensures
        res@ == server_dir(extension@.working_dir, version@),
{
    let dir = join_path(extension.working_dir(), "language-server");
    join_path(dir.as_str(), version)
}

/// The script of a version lies directly in the directory of that version,
/// where the download puts it: the directory's path, a separator unless the
/// path ends with one, then `server.js`.
pub proof fn law_binary_lies_in_server_dir(working_dir: Seq<char>, version: Seq<char>)
    ensures
        ({
            let dir = server_dir(working_dir, version);
            let binary = server_binary(working_dir, version);
            ||| binary == dir + "server.js"@ && (dir.len() == 0 || dir.last() == '/')
            ||| binary == dir + "/server.js"@ && dir.len() > 0 && dir.last() != '/'
        }),
{
    reveal_strlit("server.js");
    reveal_strlit("/server.js");
    let dir = server_dir(working_dir, version);
    assert(dir + seq!['/'] + "server.js"@ =~= dir + "/server.js"@);
}

/// A version of the language server lies in `language-server/<version>`
/// under the working directory, its script in `server.js` there: for a
/// working directory that does not end with `/` and a version that neither
/// begins nor ends with one, the paths are the working directory,
/// `/language-server/`, the version, and then `/server.js` for the script.
pub proof fn law_server_paths(working_dir: Seq<char>, version: Seq<char>)
    requires
        working_dir.len() > 0,
        working_dir.last() != '/',
        version.len() > 0,
        version[0] != '/',
        version.last() != '/',
    ensures
        server_dir(working_dir, version) == working_dir + "/language-server/"@ + version,
        server_binary(working_dir, version) == working_dir + "/language-server/"@ + version + "/server.js"@,
{
    reveal_strlit("language-server");
    reveal_strlit("/language-server/");
    reveal_strlit("server.js");
    reveal_strlit("/server.js");
    let a = joined(working_dir, "language-server"@);
    assert(a =~= working_dir + seq!['/'] + "language-server"@);
    assert(a.last() == "language-server"@.last());
    assert(a + seq!['/'] + version =~= working_dir + "/language-server/"@ + version);
    let d = server_dir(working_dir, version);
    assert(d.last() == version.last());
    assert(d + seq!['/'] + "server.js"@ =~= working_dir + "/language-server/"@ + version + "/server.js"@);
}

/// The script of the given version of the language server.
pub fn path_of_server_binary(extension: &HaxeExtension, version: &str) -> (res: String)
    ensures
        res@ == server_binary(extension@.working_dir, version@),
{
    let dir = path_of_server_dir(extension, version);
    join_path(dir.as_str(), "server.js")
}


/// How the extension introduces itself when it downloads the server.
pub const USER_AGENT: &'static str = "Zed extension for Haxe v0.2";

/// The GitHub repository whose releases carry the language server.
pub const SERVER_REPOSITORY: &'static str = "frixuu/haxe-language-server";

/// The name of the release asset that is the language server.
pub const SERVER_ASSET_NAME: &'static str = "server.js";

/// An asset of a GitHub release.
pub struct ReleaseAsset {
    pub name: String,
    pub download_url: String,
}

/// The position of the first asset named `server.js`, if there is one.
pub open spec fn server_asset_index(assets: Seq<ReleaseAsset>) -> Option<int>
    decreases assets.len(),
{
    if assets.len() == 0 {
        None
    } else if assets[0].name@ == SERVER_ASSET_NAME@ {
        Some(0)
    } else {
        match server_asset_index(assets.drop_first()) {
            Some(i) => Some(i + 1),
            None => None,
        }
    }
}

proof fn lemma_server_asset_index_bounds(assets: Seq<ReleaseAsset>)
    ensures
        server_asset_index(assets) matches Some(i) ==> 0 <= i < assets.len() && assets[i].name@
            == SERVER_ASSET_NAME@,
    decreases assets.len(),
{
    if assets.len() > 0 && assets[0].name@ != SERVER_ASSET_NAME@ {
        lemma_server_asset_index_bounds(assets.drop_first());
    }
}

/// The language server is the first asset named `server.js`: when some
/// asset has that name, it is the first of them, whatever comes before or
/// after it; otherwise there is none.
pub proof fn law_server_asset_is_first_server_js(assets: Seq<ReleaseAsset>)
    ensures
        match server_asset_index(assets) {
            Some(i) => 0 <= i < assets.len() && assets[i].name@ == "server.js"@ && forall|j: int|
                0 <= j < i ==> assets[j].name@ != "server.js"@,
            None => forall|j: int| 0 <= j < assets.len() ==> assets[j].name@ != "server.js"@,
        },
    decreases assets.len(),
{
    reveal_strlit("server.js");
    if assets.len() > 0 && assets[0].name@ != "server.js"@ {
        let rest = assets.drop_first();
        law_server_asset_is_first_server_js(rest);
        assert forall|j: int| 1 <= j < assets.len() implies assets[j] == rest[j - 1] by {}
    }
}

/// Finds the asset of a release that is the language server.
pub fn server_asset(assets: &Vec<ReleaseAsset>) -> (res: Option<usize>)
    ensures
        match res {
            Some(i) => server_asset_index(assets@) == Some(i as int),
            None => server_asset_index(assets@) is None,
        },
        match res {
            Some(i) => i < assets@.len() && assets@[i as int].name@ == "server.js"@ && forall|j: int|
                0 <= j < i ==> assets@[j].name@ != "server.js"@,
            None => forall|j: int| 0 <= j < assets@.len() ==> assets@[j].name@ != "server.js"@,
        },
{
    proof {
        law_server_asset_is_first_server_js(assets@);
    }
    let wanted = SERVER_ASSET_NAME.to_string();
    let n = assets.len();
    let mut i: usize = n;
    let mut res: Option<usize> = None;
    while i > 0
        invariant
            n == assets@.len(),
            i <= n,
            wanted@ == SERVER_ASSET_NAME@,
            match res {
                Some(k) => server_asset_index(assets@.skip(i as int)) == Some(k - i) && i <= k < n,
                None => server_asset_index(assets@.skip(i as int)) is None,
            },
        decreases i,
    {
        i = i - 1;
        assert(assets@.skip(i as int).drop_first() =~= assets@.skip(i + 1));
        if assets[i].name == wanted {
            res = Some(i);
        }
    }
    assert(assets@.skip(0) =~= assets@);
    res
}

/// What Zed shows of the installation of the language server.
#[derive(Debug, Clone, Copy, PartialEq, Eq)]
pub enum InstallationStatus {
    /// Nothing is shown.
    Idle,
    CheckingForUpdate,
    Downloading,
}

/// The status shown while the latest release is queried.
pub const STATUS_WHILE_CHECKING: InstallationStatus = InstallationStatus::CheckingForUpdate;

/// What remains to do once the latest release of the language server is
/// known.
pub enum ReleaseStep {
    /// Show `status`, then tell `after_install_check` whether `version` is
    /// installed; `url` is where its `server.js` can be downloaded from.
    CheckInstalled { status: InstallationStatus, version: String, url: String },
    /// The release could not be queried, for this reason.
    Fail(String),
}

/// What remains to do once it is known whether the latest version is
/// installed.
pub enum InstallStep {
    /// The version is there; nothing to download.
    Done(String),
    /// Download `server.js` of `version` from `url`, then report to
    /// `after_fetch`.
    Download { url: String, version: String },
}

/// Goes on from the query for the latest release: its version and assets,
/// or why it failed. A release without a `server.js` asset cannot be used
/// (the caller stops there).
pub fn after_release(release: Result<(String, Vec<ReleaseAsset>), String>) -> (res: ReleaseStep)
    requires
        release matches Ok((v, a)) ==> server_asset_index(a@) is Some,
    ensures
        match release {
            Err(e) => res == ReleaseStep::Fail(e),
            Ok((v, a)) => res matches ReleaseStep::CheckInstalled { status, version, url } && status
                == InstallationStatus::Idle && version@ == v@ && url@ == a@[server_asset_index(
                a@,
            )->0].download_url@,
        },
{
    match release {
        Err(e) => ReleaseStep::Fail(e),
        Ok((version, assets)) => {
            let i = server_asset(&assets).unwrap();
            proof {
                lemma_server_asset_index_bounds(assets@);
            }
            let url = assets[i].download_url.clone();
            ReleaseStep::CheckInstalled { status: InstallationStatus::Idle, version, url }
        },
    }
}

/// Goes on once it is known whether the latest version is installed: an
/// installed version needs no download.
pub fn after_install_check(version: String, url: String, installed: bool) -> (res: InstallStep)
    ensures
        installed ==> (res matches InstallStep::Done(v) && v@ == version@),
        !installed ==> (res matches InstallStep::Download { url: u, version: v } && u@ == url@ && v@ == version@),
{
    if installed {
        InstallStep::Done(version)
    } else {
        InstallStep::Download { url, version }
    }
}

/// The outcome of the fetch: the version, once its download succeeded, or
/// why the download failed.
pub fn after_fetch(version: String, outcome: Result<(), String>) -> (res: Result<String, String>)
    ensures
        outcome is Ok ==> (res matches Ok(v) && v@ == version@),
        outcome matches Err(e) ==> res == Err::<String, String>(e),
{
    match outcome {
        Ok(()) => Ok(version),
        Err(e) => Err(e),
    }
}

/// Where a version of the language server is put, and how it is fetched.
pub struct ServerDownload {
    /// The directory to create first.
    pub dir: String,
    /// The request that fetches `server.js`.
    pub request: HttpRequest,
    /// Where the fetched script is written.
    pub binary: String,
}

/// How the given version of the language server is downloaded from `url`
/// into the working directory.
pub fn server_download_plan(extension: &HaxeExtension, url: &str, version: &str) -> (res: ServerDownload)
    ensures
        res.dir@ == server_dir(extension@.working_dir, version@),
        res.binary@ == server_binary(extension@.working_dir, version@),
        res.request.method == HttpMethod::Get,
        res.request.url@ == url@,
        header_texts(res.request.headers@) == seq![("user-agent"@, USER_AGENT@)],
        res.request.body is None,
        res.request.redirect_policy == RedirectPolicy::FollowLimit(5),
{
    ServerDownload {
        dir: path_of_server_dir(extension, version),
        request: server_download_request(url),
        binary: path_of_server_binary(extension, version),
    }
}

/// Goes on once the directory of the download was created, or could not be
/// (`detail` is the debug text of the error): show `Downloading`, or fail.
pub fn after_create_dir(outcome: Result<(), String>) -> (res: Result<InstallationStatus, String>)
    ensures
        outcome is Ok ==> res == Ok::<InstallationStatus, String>(InstallationStatus::Downloading),
        outcome matches Err(detail) ==> (res matches Err(m) && m@
            == "Tried to ensure a directory for the language server exists before downloading it, but could not create it: "@
            + detail@),
{
    match outcome {
        Ok(()) => Ok(InstallationStatus::Downloading),
        Err(detail) => {
            let mut message =
                "Tried to ensure a directory for the language server exists before downloading it, but could not create it: ".to_string();
            message.append(detail.as_str());
            Err(message)
        },
    }
}

/// Goes on once the script was fetched (its bytes), or could not be
/// (`detail` is the debug text of the error).
pub fn after_fetch_binary(outcome: Result<Vec<u8>, String>) -> (res: Result<Vec<u8>, String>)
    ensures
        outcome matches Ok(body) ==> res == Ok::<Vec<u8>, String>(body),
        outcome matches Err(detail) ==> (res matches Err(m) && m@
            == "Tried to fetch the language server binary, but something happened: "@ + detail@),
{
    match outcome {
        Ok(body) => Ok(body),
        Err(detail) => {
            let mut message = "Tried to fetch the language server binary, but something happened: ".to_string();
            message.append(detail.as_str());
            Err(message)
        },
    }
}

/// Goes on once the script was written to disk, or could not be (`detail`
/// is the debug text of the error): show no status any more, or fail.
pub fn after_save_binary(outcome: Result<(), String>) -> (res: Result<InstallationStatus, String>)
    ensures
        outcome is Ok ==> res == Ok::<InstallationStatus, String>(InstallationStatus::Idle),
        outcome matches Err(detail) ==> (res matches Err(m) && m@
            == "Could not save the language server binary to disk: "@ + detail@),
{
    match outcome {
        Ok(()) => Ok(InstallationStatus::Idle),
        Err(detail) => {
            let mut message = "Could not save the language server binary to disk: ".to_string();
            message.append(detail.as_str());
            Err(message)
        },
    }
}

/// The request that downloads the language server from `url`: a `GET` that
/// names the extension as its user agent and follows up to five redirects.
pub fn server_download_request(url: &str) -> (res: HttpRequest)
    ensures
        res.method == HttpMethod::Get,
        res.url@ == url@,
        header_texts(res.headers@) == seq![("user-agent"@, USER_AGENT@)],
        res.body is None,
        res.redirect_policy == RedirectPolicy::FollowLimit(5),
{
    let mut headers: Vec<(String, String)> = Vec::new();
    headers.push(header("user-agent", USER_AGENT.to_string()));
    assert(header_texts(headers@) =~= seq![("user-agent"@, USER_AGENT@)]);
    HttpRequest {
        method: HttpMethod::Get,
        url: url.to_string(),
        headers,
        body: None,
        redirect_policy: RedirectPolicy::FollowLimit(5),
    }
}

} // verus!
