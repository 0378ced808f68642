use memora::client::S3ExampleError;
use memora::error::{ErrorMessage, HttpError};
use memora::index::LocalIndex;
use memora::paths::{name_of, parent_of};
use memora::remote::{bearer, file_endpoint, files_endpoint};
use memora::schema::{FileResponse, FileStatus, FileType};

fn record(id: u128, name: &str, directory: &str, kind: FileType) -> FileResponse {
    FileResponse {
        id,
        name: name.to_string(),
        directory: directory.to_string(),
        file_type: kind,
        status: FileStatus::OPEN,
        presigned_url: None,
        upload_presigned_url: None,
        created_at: 1000,
        modified_at: 2000,
    }
}

#[test]
fn name_and_parent_of_nested_path() {
    let p = "/sub/b.txt".to_string();
    assert_eq!(name_of(&p), "b.txt");
    assert_eq!(parent_of(&p), "/sub");
}

#[test]
fn name_and_parent_of_entry_of_filesystem_root() {
    let p = "/a.txt".to_string();
    assert_eq!(name_of(&p), "a.txt");
    assert_eq!(parent_of(&p), "/");
}

#[test]
fn name_and_parent_of_bare_name() {
    let p = "notes".to_string();
    assert_eq!(name_of(&p), "notes");
    assert_eq!(parent_of(&p), "");
}

#[test]
fn name_and_parent_of_relative_path() {
    let p = "./data/photos/cat.png".to_string();
    assert_eq!(name_of(&p), "cat.png");
    assert_eq!(parent_of(&p), "./data/photos");
}

#[test]
fn wire_literals_of_kinds_and_statuses() {
    assert_eq!(FileType::FILE.to_text(), "FILE");
    assert_eq!(FileType::DIRECTORY.to_text(), "DIRECTORY");
    assert_eq!(FileStatus::OPEN.to_text(), "OPEN");
    assert_eq!(FileStatus::CLOSED.to_text(), "CLOSED");
}

#[test]
fn kinds_and_statuses_read_back() {
    assert_eq!(FileType::parse(&"FILE".to_string()), Some(FileType::FILE));
    assert_eq!(FileType::parse(&"DIRECTORY".to_string()), Some(FileType::DIRECTORY));
    assert_eq!(FileType::parse(&"file".to_string()), None);
    assert_eq!(FileStatus::parse(&"CLOSED".to_string()), Some(FileStatus::CLOSED));
    assert_eq!(FileStatus::parse(&"OPEN".to_string()), Some(FileStatus::OPEN));
    assert_eq!(FileStatus::parse(&"".to_string()), None);
}

#[test]
fn record_from_wire_fields() {
    let r = FileResponse::from_wire(
        7,
        "a.txt".to_string(),
        "/".to_string(),
        &"FILE".to_string(),
        &"OPEN".to_string(),
        None,
        Some("http://store/up".to_string()),
        5,
        6,
    )
    .unwrap();
    assert_eq!(r.id, 7);
    assert_eq!(r.file_type, FileType::FILE);
    assert_eq!(r.status, FileStatus::OPEN);
    assert_eq!(r.upload_presigned_url.as_deref(), Some("http://store/up"));
    assert_eq!((r.created_at, r.modified_at), (5, 6));
}

#[test]
fn record_from_wire_refuses_unknown_kind() {
    let r = FileResponse::from_wire(
        7,
        "a.txt".to_string(),
        "/".to_string(),
        &"LINK".to_string(),
        &"OPEN".to_string(),
        None,
        None,
        5,
        6,
    );
    assert!(r.is_none());
    let r = FileResponse::from_wire(
        7,
        "a.txt".to_string(),
        "/".to_string(),
        &"FILE".to_string(),
        &"DONE".to_string(),
        None,
        None,
        5,
        6,
    );
    assert!(r.is_none());
}

#[test]
fn endpoints_and_credential() {
    assert_eq!(files_endpoint(), "/v1/files");
    assert_eq!(
        file_endpoint(0x67e5504410b1426f9247bb680e5fe0c8),
        "/v1/files/67e55044-10b1-426f-9247-bb680e5fe0c8"
    );
    assert_eq!(bearer(&"abc".to_string()), "bearer abc");
}

#[test]
fn index_put_has_get_len() {
    let mut index = LocalIndex::new();
    let a = "/a.txt".to_string();
    let b = "/b.txt".to_string();
    assert!(!index.has(&a));
    assert_eq!(index.len(), 0);
    index.put(a.clone(), record(1, "a.txt", "/", FileType::FILE));
    assert!(index.has(&a));
    assert!(!index.has(&b));
    assert_eq!(index.len(), 1);
    index.put(b.clone(), record(2, "b.txt", "/", FileType::FILE));
    assert_eq!(index.len(), 2);
    assert_eq!(index.get(&b).unwrap().id, 2);
    assert!(index.get(&"/c.txt".to_string()).is_none());
}

#[test]
fn index_put_on_same_path_replaces() {
    let mut index = LocalIndex::new();
    let a = "/a.txt".to_string();
    index.put(a.clone(), record(1, "a.txt", "/", FileType::FILE));
    index.put(a.clone(), record(9, "a.txt", "/", FileType::FILE));
    assert_eq!(index.len(), 1);
    assert_eq!(index.get(&a).unwrap().id, 9);
}

#[test]
fn error_texts() {
    assert_eq!(ErrorMessage::FileNotFound.to_str(), "File not found");
    assert_eq!(
        ErrorMessage::ServerError.to_string(),
        "Server Error. Please try again later"
    );
    assert_eq!(
        ErrorMessage::TokenNotProvided.to_str(),
        "You are not logged in, please provide token"
    );
    assert_eq!(ErrorMessage::WrongCredentials.to_str(), "Email or password is wrong");
    assert_eq!(ErrorMessage::EmailExist.to_str(), "A User with this email already exists");
    assert_eq!(
        ErrorMessage::UserNoLongerExist.to_str(),
        "User belonging to this token no longer exists"
    );
    assert_eq!(
        ErrorMessage::InvalidToken.to_str(),
        "Authentication token is invalid or expired"
    );
}

#[test]
fn http_error_constructors_and_replies() {
    let e = HttpError::conflict_error(ErrorMessage::EmailExist.to_string());
    assert_eq!(e.status, 409);
    let (code, body) = e.into_http_response();
    assert_eq!((code, body.status.as_str()), (409, "fail"));
    assert_eq!(body.message, "A User with this email already exists");

    let (code, body) = HttpError::bad_request("bad".to_string()).into_http_response();
    assert_eq!((code, body.status.as_str(), body.message.as_str()), (400, "fail", "bad"));

    let (code, body) = HttpError::not_found("gone".to_string()).into_http_response();
    assert_eq!((code, body.status.as_str(), body.message.as_str()), (404, "fail", "gone"));

    let (code, body) = HttpError::server_error("boom".to_string()).into_http_response();
    assert_eq!((code, body.status.as_str(), body.message.as_str()), (500, "error", "boom"));

    let unauthorized = HttpError { message: "who".to_string(), status: 401 };
    let (code, body) = unauthorized.into_http_response();
    assert_eq!((code, body.status.as_str()), (401, "fail"));

    let odd = HttpError { message: "teapot".to_string(), status: 418 };
    let (code, body) = odd.into_http_response();
    assert_eq!((code, body.status.as_str()), (500, "error"));
    assert_eq!(body.message, "Server Error. Please try again later");
}

#[test]
fn object_store_error_keeps_text() {
    let e = S3ExampleError::new("NoSuchKey: missing".to_string());
    assert_eq!(e.message(), "NoSuchKey: missing");
}
