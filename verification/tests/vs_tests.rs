use std::io::{Cursor, Write};

use zed_haxe::http::{HttpMethod, RedirectPolicy};
use zed_haxe::vs::{
    latest_version_in, latest_version_query, unpack_vsix, ExtensionQueryResult, ExtensionQueryResultItem,
    ExtensionQueryResultItemExtension, ExtensionQueryResultItemExtensionVersion, PublicGalleryClient,
};

fn headers(pairs: &[(&str, &str)]) -> Vec<(String, String)> {
    pairs.iter().map(|(a, b)| (a.to_string(), b.to_string())).collect()
}

fn result_with(versions: Vec<Vec<Vec<&str>>>) -> ExtensionQueryResult {
    ExtensionQueryResult {
        results: versions
            .into_iter()
            .map(|extensions| ExtensionQueryResultItem {
                extensions: extensions
                    .into_iter()
                    .map(|vs| ExtensionQueryResultItemExtension {
                        versions: vs
                            .into_iter()
                            .map(|v| ExtensionQueryResultItemExtensionVersion { version: v.to_string() })
                            .collect(),
                    })
                    .collect(),
            })
            .collect(),
    }
}

fn gzip(bytes: &[u8]) -> Vec<u8> {
    let mut encoder = flate2::write::GzEncoder::new(Vec::new(), flate2::Compression::default());
    encoder.write_all(bytes).unwrap();
    encoder.finish().unwrap()
}

fn zip_with_one_file() -> Vec<u8> {
    let mut writer = zip::ZipWriter::new(Cursor::new(Vec::new()));
    let options = zip::write::SimpleFileOptions::default().compression_method(zip::CompressionMethod::Stored);
    writer.start_file("extension/package.json", options).unwrap();
    writer.write_all(b"{}").unwrap();
    writer.finish().unwrap().into_inner()
}

#[test]
fn client_talks_to_the_marketplace() {
    let client = PublicGalleryClient::new();
    assert_eq!(client.base_url, "https://marketplace.visualstudio.com/");
    assert_eq!(client.api_version, "7.2-preview.1");
}

#[test]
fn package_request_asks_for_a_vsix() {
    let request = PublicGalleryClient::new().package_request("nadako", "vshaxe", "2.32.0");
    assert_eq!(request.method, HttpMethod::Get);
    assert_eq!(
        request.url,
        "https://marketplace.visualstudio.com//_apis/public/gallery/publishers/nadako/vsextensions/vshaxe/2.32.0/vspackage"
    );
    assert_eq!(
        request.headers,
        headers(&[
            ("accept", "application/vsix; api-version=7.2-preview.1"),
            ("accept-encoding", "gzip, deflate"),
            ("user-agent", "Zed extension for Haxe v0.1"),
        ])
    );
    assert!(request.body.is_none());
    assert_eq!(request.redirect_policy, RedirectPolicy::NoFollow);
}

#[test]
fn query_request_posts_json() {
    let request = PublicGalleryClient::new().query_request("{}".to_string());
    assert_eq!(request.method, HttpMethod::Post);
    assert_eq!(request.url, "https://marketplace.visualstudio.com//_apis/public/gallery/extensionquery");
    assert_eq!(
        request.headers,
        headers(&[
            ("accept", "application/json; api-version=7.2-preview.1"),
            ("content-type", "application/json"),
            ("user-agent", "Zed extension for Haxe v0.1"),
        ])
    );
    assert_eq!(request.body.as_deref(), Some("{}"));
}

#[test]
fn latest_version_query_names_the_extension() {
    let query = latest_version_query("nadako", "vshaxe");
    assert_eq!(query.filters.len(), 1);
    assert_eq!(query.filters[0].page_number, 1);
    assert_eq!(query.filters[0].page_size, 1);
    assert_eq!(query.filters[0].criteria.len(), 1);
    assert_eq!(query.filters[0].criteria[0].filter_type, 7);
    assert_eq!(query.filters[0].criteria[0].value, "nadako.vshaxe");
    assert!(query.asset_types.is_empty());
    assert_eq!(query.flags, 1);
}

#[test]
fn latest_version_is_the_first_one() {
    let result = result_with(vec![vec![vec!["2.0.0", "1.0.0"], vec!["9.9.9"]], vec![vec!["8.8.8"]]]);
    assert_eq!(latest_version_in(&result), Ok("2.0.0".to_string()));
}

#[test]
fn empty_answer_has_no_version() {
    let message = "Extension query succeeded, but did not return any version info".to_string();
    for versions in [vec![], vec![vec![]], vec![vec![vec![]]]] {
        assert_eq!(latest_version_in(&result_with(versions)), Err(message.clone()));
    }
}

#[test]
fn vsix_is_gzipped_zip() {
    let archive = unpack_vsix(&gzip(&zip_with_one_file())).unwrap();
    assert_eq!(archive.len(), 1);
    assert_eq!(archive.file_names().collect::<Vec<_>>(), vec!["extension/package.json"]);
}

#[test]
fn non_gzip_package_is_refused() {
    let error = unpack_vsix(b"not gzip at all").err().unwrap();
    assert!(error.starts_with("Could not decode .vsix package as gzip: "), "{error}");
}

#[test]
fn gzip_that_is_no_zip_is_refused() {
    let error = unpack_vsix(&gzip(b"plain text")).err().unwrap();
    assert!(error.starts_with("Could not read .vsix package as zip: "), "{error}");
}
