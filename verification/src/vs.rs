//! A client of the Visual Studio extension marketplace: the requests it
//! makes, the query for the latest version of an extension, and the
//! unpacking of a downloaded `.vsix` package.

use std::io::Cursor;

use vstd::prelude::*;

use crate::http::{header, header_texts, HttpMethod, HttpRequest, RedirectPolicy};

verus! {

#[verifier::external_type_specification]
#[verifier::external_body]
#[verifier::reject_recursive_types(T)]
pub struct ExCursor<T>(Cursor<T>);

#[verifier::external_type_specification]
#[verifier::external_body]
#[verifier::reject_recursive_types(R)]
pub struct ExZipArchive<R>(zip::ZipArchive<R>);

/// How the client introduces itself to the marketplace.
pub const GALLERY_USER_AGENT: &'static str = "Zed extension for Haxe v0.1";

/// A client of the public gallery of the marketplace.
pub struct PublicGalleryClient {
    pub base_url: String,
    pub api_version: String,
}

/// A filter criterion of a query.
pub struct ExtensionQueryFilterCriteria {
    pub filter_type: u32,
    pub value: String,
}

/// A filter of a query, with the page of results it asks for.
pub struct ExtensionQueryFilter {
    pub page_number: u32,
    pub page_size: u32,
    pub criteria: Vec<ExtensionQueryFilterCriteria>,
}

/// A query for extensions.
pub struct ExtensionQuery {
    pub filters: Vec<ExtensionQueryFilter>,
    pub asset_types: Vec<u32>,
    pub flags: u32,
}

/// A version of an extension in a query result.
pub struct ExtensionQueryResultItemExtensionVersion {
    pub version: String,
}

/// An extension in a query result.
pub struct ExtensionQueryResultItemExtension {
    pub versions: Vec<ExtensionQueryResultItemExtensionVersion>,
}

/// The answer to one filter of a query.
pub struct ExtensionQueryResultItem {
    pub extensions: Vec<ExtensionQueryResultItemExtension>,
}

/// The answer to a query.
pub struct ExtensionQueryResult {
    pub results: Vec<ExtensionQueryResultItem>,
}

/// The URL that a package is downloaded from.
pub open spec fn package_url(
    base_url: Seq<char>,
    author: Seq<char>,
    name: Seq<char>,
    version: Seq<char>,
) -> Seq<char> {
    base_url + "/_apis/public/gallery/publishers/"@ + author + "/vsextensions/"@ + name + "/"@ + version
        + "/vspackage"@
}

/// The URL that queries are posted to.
pub open spec fn query_url(base_url: Seq<char>) -> Seq<char> {
    base_url + "/_apis/public/gallery/extensionquery"@
}

/// The filter criterion that names an extension.
pub open spec fn extension_name_filter_type() -> u32 {
    7
}

/// The first version of the first extension of the first result, if any.
pub open spec fn first_version(result: ExtensionQueryResult) -> Option<Seq<char>> {
    if result.results@.len() > 0 && result.results@[0].extensions@.len() > 0
        && result.results@[0].extensions@[0].versions@.len() > 0 {
        Some(result.results@[0].extensions@[0].versions@[0].version@)
    } else {
        None
    }
}

/// Why the latest version is unknown although the query succeeded.
pub open spec fn no_version_message() -> Seq<char> {
    "Extension query succeeded, but did not return any version info"@
}

impl PublicGalleryClient {
    /// Creates a new API client for the Visual Studio extension marketplace.
    pub fn new() -> (res: Self)
        ensures
            res.base_url@ == "https://marketplace.visualstudio.com/"@,
            res.api_version@ == "7.2-preview.1"@,
    {
        PublicGalleryClient {
            base_url: "https://marketplace.visualstudio.com/".to_string(),
            api_version: "7.2-preview.1".to_string(),
        }
    }

    /// The request that downloads a package as raw bytes: a `GET` of its
    /// URL that accepts a `.vsix` package of the client's API version,
    /// compressed, and follows no redirect.
    pub fn package_request(&self, author: &str, name: &str, version: &str) -> (res: HttpRequest)
        ensures
            res.method == HttpMethod::Get,
            res.url@ == package_url(self.base_url@, author@, name@, version@),
            header_texts(res.headers@) == seq![
                ("accept"@, "application/vsix; api-version="@ + self.api_version@),
                ("accept-encoding"@, "gzip, deflate"@),
                ("user-agent"@, GALLERY_USER_AGENT@),
            ],
            res.body is None,
            res.redirect_policy == RedirectPolicy::NoFollow,
    {
        let mut url = self.base_url.clone();
        url.append("/_apis/public/gallery/publishers/");
        url.append(author);
        url.append("/vsextensions/");
        url.append(name);
        url.append("/");
        url.append(version);
        url.append("/vspackage");
        let mut accept = "application/vsix; api-version=".to_string();
        accept.append(self.api_version.as_str());
        let mut headers: Vec<(String, String)> = Vec::new();
        headers.push(header("accept", accept));
        headers.push(header("accept-encoding", "gzip, deflate".to_string()));
        headers.push(header("user-agent", GALLERY_USER_AGENT.to_string()));
        assert(header_texts(headers@) =~= seq![
            ("accept"@, "application/vsix; api-version="@ + self.api_version@),
            ("accept-encoding"@, "gzip, deflate"@),
            ("user-agent"@, GALLERY_USER_AGENT@),
        ]);
        HttpRequest { method: HttpMethod::Get, url, headers, body: None, redirect_policy: RedirectPolicy::NoFollow }
    }

    /// The request that posts a query, written as JSON in `body`: it accepts
    /// JSON of the client's API version and follows no redirect.
    pub fn query_request(&self, body: String) -> (res: HttpRequest)
        ensures
            res.method == HttpMethod::Post,
            res.url@ == query_url(self.base_url@),
            header_texts(res.headers@) == seq![
                ("accept"@, "application/json; api-version="@ + self.api_version@),
                ("content-type"@, "application/json"@),
                ("user-agent"@, GALLERY_USER_AGENT@),
            ],
            res.body == Some(body),
            res.redirect_policy == RedirectPolicy::NoFollow,
    {
        let mut url = self.base_url.clone();
        url.append("/_apis/public/gallery/extensionquery");
        let mut accept = "application/json; api-version=".to_string();
        accept.append(self.api_version.as_str());
        let mut headers: Vec<(String, String)> = Vec::new();
        headers.push(header("accept", accept));
        headers.push(header("content-type", "application/json".to_string()));
        headers.push(header("user-agent", GALLERY_USER_AGENT.to_string()));
        assert(header_texts(headers@) =~= seq![
            ("accept"@, "application/json; api-version="@ + self.api_version@),
            ("content-type"@, "application/json"@),
            ("user-agent"@, GALLERY_USER_AGENT@),
        ]);
        HttpRequest {
            method: HttpMethod::Post,
            url,
            headers,
            body: Some(body),
            redirect_policy: RedirectPolicy::NoFollow,
        }
    }
}

/// The query for the latest version of the extension `name` of `author`:
/// one filter, for the first page of one result, whose one criterion names
/// the extension as `author.name`; no asset types, flags 1.
pub fn latest_version_query(author: &str, name: &str) -> (res: ExtensionQuery)
    ensures
        res.filters@.len() == 1,
        res.filters@[0].page_number == 1,
        res.filters@[0].page_size == 1,
        res.filters@[0].criteria@.len() == 1,
        res.filters@[0].criteria@[0].filter_type == extension_name_filter_type(),
        res.filters@[0].criteria@[0].value@ == author@ + "."@ + name@,
        res.asset_types@.len() == 0,
        res.flags == 1,
{
    let mut value = author.to_string();
    value.append(".");
    value.append(name);
    let mut criteria: Vec<ExtensionQueryFilterCriteria> = Vec::new();
    criteria.push(ExtensionQueryFilterCriteria { filter_type: 7, value });
    let mut filters: Vec<ExtensionQueryFilter> = Vec::new();
    filters.push(ExtensionQueryFilter { page_number: 1, page_size: 1, criteria });
    ExtensionQuery { filters, asset_types: Vec::new(), flags: 1 }
}

/// The latest version that the answer to `latest_version_query` gives: the
/// first version of the first extension of the first result.
pub fn latest_version_in(result: &ExtensionQueryResult) -> (res: Result<String, String>)
    ensures
        match first_version(*result) {
            Some(v) => res matches Ok(s) && s@ == v,
            None => res matches Err(e) && e@ == no_version_message(),
        },
{
    if result.results.len() > 0 && result.results[0].extensions.len() > 0
        && result.results[0].extensions[0].versions.len() > 0 {
        Ok(result.results[0].extensions[0].versions[0].version.clone())
    } else {
        Err("Extension query succeeded, but did not return any version info".to_string())
    }
}

/// The latest version is the first version listed for the first extension
/// of the first result, whenever the answer lists one, however many there
/// are; the query fails only when the answer lists none.
pub proof fn law_latest_version_is_first_listed(result: ExtensionQueryResult, res: Result<String, String>)
    requires
        match first_version(result) {
            Some(v) => res matches Ok(s) && s@ == v,
            None => res matches Err(e) && e@ == no_version_message(),
        },
    ensures
        result.results@.len() >= 1 && result.results@[0].extensions@.len() >= 1
            && result.results@[0].extensions@[0].versions@.len() >= 1 ==> (res matches Ok(s) && s@
            == result.results@[0].extensions@[0].versions@[0].version@),
        result.results@.len() == 0 || result.results@[0].extensions@.len() == 0
            || result.results@[0].extensions@[0].versions@.len() == 0 ==> res is Err,
{
}

/// What decompressing `bytes` as gzip gives: the decompressed bytes, or the
/// debug text of the error.
pub uninterp spec fn gunzip(bytes: Seq<u8>) -> Result<Seq<u8>, Seq<char>>;

/// Decompresses gzip data held in memory.
///
/// Trusted: reading a `flate2::read::GzDecoder` over the bytes to the end is
/// taken to be a function of the bytes alone, named `gunzip`: the bytes it
/// yields, or the `Debug` text of the `std::io::Error` it fails with.
#[verifier::external_body]
fn gunzip_bytes(bytes: &[u8]) -> (res: Result<Vec<u8>, String>)
    ensures
        match res {
            Ok(v) => gunzip(bytes@) == Ok::<Seq<u8>, Seq<char>>(v@),
            Err(e) => gunzip(bytes@) == Err::<Seq<u8>, Seq<char>>(e@),
        },
{
    let mut decoder = flate2::read::GzDecoder::new(Cursor::new(bytes));
    let mut out: Vec<u8> = Vec::new();
    match std::io::Read::read_to_end(&mut decoder, &mut out) {
        Ok(_) => Ok(out),
        Err(e) => Err(format!("{:?}", e)),
    }
}

/// Why `bytes` cannot be opened as a ZIP archive (the debug text of the
/// error), or `None` when they can.
pub uninterp spec fn zip_open_failure(bytes: Seq<u8>) -> Option<Seq<char>>;

/// The files that an opened archive lists: the names of its entries, in
/// the order of its central directory.
pub uninterp spec fn archive_files(archive: zip::ZipArchive<Cursor<Vec<u8>>>) -> Seq<Seq<char>>;

/// The files that the central directory of the ZIP archive held in `bytes`
/// lists, when `zip::ZipArchive::new` reads it.
pub uninterp spec fn zip_files(bytes: Seq<u8>) -> Seq<Seq<char>>;

/// Opens a ZIP archive held in memory.
///
/// Trusted: `zip::ZipArchive::new` over a cursor on the bytes is taken to
/// succeed or fail as a function of the bytes alone, named
/// `zip_open_failure`, failing with the `Debug` text of its `ZipError`; the
/// archive it opens lists the files that the bytes hold, named `zip_files`.
#[verifier::external_body]
fn open_zip(bytes: Vec<u8>) -> (res: Result<zip::ZipArchive<Cursor<Vec<u8>>>, String>)
    ensures
        match res {
            Ok(a) => zip_open_failure(bytes@) is None && archive_files(a) == zip_files(bytes@),
            Err(e) => zip_open_failure(bytes@) == Some(e@),
        },
{
    match zip::ZipArchive::new(Cursor::new(bytes)) {
        Ok(archive) => Ok(archive),
        Err(e) => Err(format!("{:?}", e)),
    }
}

/// Opens a downloaded `.vsix` package: gzip-compressed, and a ZIP archive
/// underneath. The archive handed back is the one that the decompressed
/// bytes hold.
pub fn unpack_vsix(raw_bytes: &[u8]) -> (res: Result<zip::ZipArchive<Cursor<Vec<u8>>>, String>)
    ensures
        match gunzip(raw_bytes@) {
            Err(e) => res matches Err(m) && m@ == "Could not decode .vsix package as gzip: "@ + e,
            Ok(unzipped) => match zip_open_failure(unzipped) {
                Some(e) => res matches Err(m) && m@ == "Could not read .vsix package as zip: "@ + e,
                None => res matches Ok(a) && archive_files(a) == zip_files(unzipped),
            },
        },
{
    match gunzip_bytes(raw_bytes) {
        Err(e) => {
            let mut message = "Could not decode .vsix package as gzip: ".to_string();
            message.append(e.as_str());
            Err(message)
        },
        Ok(unzipped) => match open_zip(unzipped) {
            Ok(archive) => Ok(archive),
            Err(e) => {
                let mut message = "Could not read .vsix package as zip: ".to_string();
                message.append(e.as_str());
                Err(message)
            },
        },
    }
}

} // verus!
