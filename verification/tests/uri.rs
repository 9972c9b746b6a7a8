use lsp_mcp_rs::error::ClientError;
use lsp_mcp_rs::uri::{fits_uri, path_to_uri, uri_to_path_string};

#[test]
fn absolute_path_becomes_file_uri() {
    assert_eq!(path_to_uri("/proj/src/main.rs", "/cwd").unwrap(), "file:///proj/src/main.rs");
    assert_eq!(path_to_uri("/", "/cwd").unwrap(), "file:///");
}

#[test]
fn relative_path_is_taken_from_the_working_directory() {
    assert_eq!(path_to_uri("src/main.rs", "/home/me").unwrap(), "file:///home/me/src/main.rs");
    assert_eq!(path_to_uri("main.rs", "/home/me/").unwrap(), "file:///home/me/main.rs");
}

#[test]
fn space_hash_and_question_mark_are_escaped() {
    assert_eq!(
        path_to_uri("/my proj/a#b/c?d.rs", "/").unwrap(),
        "file:///my%20proj/a%23b/c%3Fd.rs"
    );
}

#[test]
fn mount_point_becomes_drive_letter() {
    assert_eq!(path_to_uri("/mnt/c/Users/me/a.rs", "/").unwrap(), "file:///C:Users/me/a.rs");
    assert_eq!(path_to_uri("/mnt/D/x y", "/").unwrap(), "file:///D:x%20y");
    assert_eq!(path_to_uri("/mnt/c/", "/").unwrap(), "file:///C:");
}

#[test]
fn mount_path_too_short_for_a_drive_is_refused() {
    assert!(matches!(path_to_uri("/mnt/c", "/"), Err(ClientError::InvalidUri(path)) if path == "/mnt/c"));
    assert!(matches!(path_to_uri("/mnt/", "/"), Err(ClientError::InvalidUri(_))));
}

#[test]
fn text_that_is_no_uri_is_refused() {
    let refused = path_to_uri("/a/b<c>.rs", "/");
    assert!(matches!(refused, Err(ClientError::InvalidUri(text)) if text == "file:///a/b<c>.rs"));
    assert!(matches!(path_to_uri("/a/50%.rs", "/"), Err(ClientError::InvalidUri(_))));
}

#[test]
fn file_uri_names_its_path() {
    assert_eq!(uri_to_path_string("file:///proj/src/main.rs"), "/proj/src/main.rs");
    assert_eq!(uri_to_path_string("file:///C:/Users/me"), "/C:/Users/me");
    assert_eq!(uri_to_path_string("file:///"), "/");
}

#[test]
fn other_text_stands_as_its_own_path() {
    assert_eq!(uri_to_path_string("https://example.org/x"), "https://example.org/x");
    assert_eq!(uri_to_path_string("file://host/share"), "file://host/share");
    assert_eq!(uri_to_path_string(""), "");
}

#[test]
fn uri_of_a_path_names_that_path_again() {
    let uri = path_to_uri("/proj/src/lib.rs", "/").unwrap();
    assert_eq!(uri_to_path_string(&uri), "/proj/src/lib.rs");
}

#[test]
fn ordinary_text_is_short_enough_for_a_uri() {
    assert!(fits_uri(""));
    assert!(fits_uri("file:///proj/src/main.rs"));
}
