use b2get::auth::AuthorizeAccountResponse;
use b2get::request::request_path;

#[test]
fn object_name_with_slashes_is_kept_as_segments() {
    let p = request_path("com-example-bucket", "dir/sub/file.tar");
    assert_eq!(p, "file/com-example-bucket/dir/sub/file.tar");
}

#[test]
fn plain_object_name_builds_plain_path() {
    let p = request_path("bucket", "archive.tar");
    assert_eq!(p, "file/bucket/archive.tar");
}

#[test]
fn authorization_response_keeps_its_fields() {
    let r = AuthorizeAccountResponse::new(
        String::from("4_abc_token"),
        String::from("https://f000.example.test"),
    );
    assert_eq!(r.authorization_token, "4_abc_token");
    assert_eq!(r.api_info.storage_api.download_url, "https://f000.example.test");
}
