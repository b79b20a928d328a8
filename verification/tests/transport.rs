//! Locator parsing, transport argument planning and the fingerprint
//! response reader.
use npcnix::remote::{get_etag_args, parse_locator, parse_etag_response, pull_args, push_args};

#[test]
fn locator_exposes_the_parsed_parts() {
    let l = parse_locator("s3://bucket/some/key.tar.zst").unwrap();
    assert_eq!(l.scheme(), "s3");
    assert_eq!(l.host_str(), Some("bucket"));
    assert_eq!(l.path(), "/some/key.tar.zst");
    assert_eq!(l.as_str(), "s3://bucket/some/key.tar.zst");
}

#[test]
fn locator_rejects_what_is_not_an_absolute_url() {
    assert!(parse_locator("not a url").is_none());
    assert!(parse_locator("/just/a/path").is_none());
}

#[test]
fn pull_arguments_stream_the_object_to_stdout() {
    let l = parse_locator("s3://bucket/key").unwrap();
    assert_eq!(pull_args(&l).unwrap(), vec!["s3", "cp", "s3://bucket/key", "-"]);
}

#[test]
fn push_arguments_stream_stdin_to_the_object() {
    let l = parse_locator("s3://bucket/key").unwrap();
    assert_eq!(push_args(&l).unwrap(), vec!["s3", "cp", "-", "s3://bucket/key"]);
}

#[test]
fn fingerprint_arguments_split_bucket_and_key() {
    let l = parse_locator("s3://bucket/some/key.tar.zst").unwrap();
    assert_eq!(
        get_etag_args(&l).unwrap(),
        vec![
            "s3api",
            "get-object-attributes",
            "--bucket",
            "bucket",
            "--key",
            "some/key.tar.zst",
            "--object-attributes",
            "ETag",
        ]
    );
}

#[test]
fn unsupported_scheme_is_rejected_without_an_attempt() {
    let l = parse_locator("https://example.com/key").unwrap();
    assert!(matches!(
        pull_args(&l),
        Err(npcnix::NpcnixError::ProtocolNotSupported { ref scheme }) if scheme == "https"
    ));
    assert!(matches!(
        push_args(&l),
        Err(npcnix::NpcnixError::ProtocolNotSupported { .. })
    ));
    assert!(matches!(
        get_etag_args(&l),
        Err(npcnix::NpcnixError::ProtocolNotSupported { .. })
    ));
}

#[test]
fn hostless_locator_cannot_name_a_bucket() {
    let l = parse_locator("s3:opaque-key").unwrap();
    assert!(l.host_str().is_none());
    assert!(matches!(
        get_etag_args(&l),
        Err(npcnix::NpcnixError::InvalidRemote)
    ));
}

#[test]
fn keyless_path_is_rejected() {
    let l = parse_locator("s3://bucket").unwrap();
    assert!(matches!(
        get_etag_args(&l),
        Err(npcnix::NpcnixError::RemoteKeyMissing)
    ));
}

#[test]
fn etag_is_read_out_of_the_metadata_response() {
    let response = "{\n    \"LastModified\": \"2021-01-01T00:00:00+00:00\",\n    \
                    \"ETag\": \"\\\"0cc175b9c0f1b6a831c399e269772661\\\"\"\n}\n";
    assert_eq!(
        parse_etag_response(response).unwrap(),
        "\"0cc175b9c0f1b6a831c399e269772661\""
    );
}

#[test]
fn etag_reader_handles_compact_responses() {
    assert_eq!(parse_etag_response("{\"ETag\":\"abc\"}").unwrap(), "abc");
}

#[test]
fn response_without_an_etag_is_a_transport_failure() {
    assert!(matches!(
        parse_etag_response("{}"),
        Err(npcnix::NpcnixError::TransportFailed)
    ));
    assert!(matches!(
        parse_etag_response("{\"ETag\": 5}"),
        Err(npcnix::NpcnixError::TransportFailed)
    ));
}

#[test]
fn error_messages_name_the_failure() {
    let l = parse_locator("https://example.com/key").unwrap();
    let e = pull_args(&l).unwrap_err();
    assert_eq!(e.message(), "Protocol not supported: https");
}
