use busbar_hashicorp_vault::error::VaultError;
use busbar_hashicorp_vault::response::{
    append_capped, check_status, take_read, ReadStep, read_capped, secret_from_body, secret_from_object, MAX_RESPONSE_BYTES,
};
use std::io::Read;

#[test]
fn read_capped_refuses_over_the_cap_and_accepts_at_the_cap() {
    let cap = 16usize;
    let over = std::io::repeat(b'x').take(cap as u64 * 2);
    assert!(read_capped(over, cap).is_err());
    let at = std::io::repeat(b'x').take(cap as u64);
    assert_eq!(read_capped(at, cap).unwrap().len(), cap);
}

#[test]
fn read_capped_returns_the_bytes_read() {
    let body: &[u8] = b"{\"data\":1}";
    assert_eq!(read_capped(body, 64).unwrap(), body.to_vec());
}

#[test]
fn read_capped_reads_beyond_one_chunk() {
    let r = std::io::repeat(b'a').take(20000);
    let got = read_capped(r, 20000).unwrap();
    assert_eq!(got.len(), 20000);
    assert!(got.iter().all(|b| *b == b'a'));
}

#[test]
fn read_capped_refuses_one_byte_over() {
    let r = std::io::repeat(b'a').take(17);
    match read_capped(r, 16) {
        Err(VaultError::ResponseTooLarge { cap }) => assert_eq!(cap, 16),
        other => panic!("unexpected: {:?}", other),
    }
}

#[test]
fn read_capped_accepts_an_empty_body() {
    let r: &[u8] = b"";
    assert_eq!(read_capped(r, 0).unwrap(), Vec::<u8>::new());
}

struct Failing;
impl Read for Failing {
    fn read(&mut self, _buf: &mut [u8]) -> std::io::Result<usize> {
        Err(std::io::Error::new(std::io::ErrorKind::Other, "broken"))
    }
}

#[test]
fn read_failure_is_reported() {
    assert!(matches!(read_capped(Failing, 16), Err(VaultError::ResponseRead)));
}

#[test]
fn append_capped_appends_within_the_cap() {
    let mut body = vec![1u8, 2];
    assert!(append_capped(&mut body, &[3, 4, 5, 6], 3, 5));
    assert_eq!(body, vec![1, 2, 3, 4, 5]);
}

#[test]
fn append_capped_leaves_the_body_when_over() {
    let mut body = vec![1u8, 2];
    assert!(!append_capped(&mut body, &[3, 4, 5, 6], 4, 5));
    assert_eq!(body, vec![1, 2]);
}

#[test]
fn max_response_is_one_mebibyte() {
    assert_eq!(MAX_RESPONSE_BYTES, 1024 * 1024);
}

#[test]
fn status_classification() {
    assert!(check_status(200, "p").is_ok());
    assert!(check_status(204, "p").is_ok());
    match check_status(404, "secret/data/x") {
        Err(e @ VaultError::NotFound { .. }) => assert!(e.message().contains("404")),
        other => panic!("unexpected: {:?}", other),
    }
    match check_status(403, "secret/data/x") {
        Err(e @ VaultError::Forbidden { .. }) => assert!(e.message().contains("403")),
        other => panic!("unexpected: {:?}", other),
    }
    match check_status(503, "p") {
        Err(e @ VaultError::ServerError { status: 503 }) => {
            assert_eq!(e.message(), "vault returned 503: the vault server is unhealthy")
        }
        other => panic!("unexpected: {:?}", other),
    }
    assert!(matches!(check_status(302, "p"), Err(VaultError::UnexpectedStatus { status: 302 })));
    assert!(matches!(check_status(400, "p"), Err(VaultError::UnexpectedStatus { status: 400 })));
    assert!(matches!(check_status(199, "p"), Err(VaultError::UnexpectedStatus { status: 199 })));
    assert!(matches!(check_status(600, "p"), Err(VaultError::UnexpectedStatus { status: 600 })));
    assert!(matches!(check_status(599, "p"), Err(VaultError::ServerError { status: 599 })));
    assert!(matches!(check_status(500, "p"), Err(VaultError::ServerError { status: 500 })));
}

const KV_BODY: &[u8] = br#"{"request_id":"r","data":{"data":{"api_key":"sk-live-abc123","org_id":"org-xyz","n":3},"metadata":{"version":1}}}"#;

#[test]
fn secret_is_read_from_the_kv_entry() {
    assert_eq!(secret_from_body(KV_BODY, "secret/data/t", "api_key").unwrap(), b"sk-live-abc123");
    assert_eq!(secret_from_body(KV_BODY, "secret/data/t", "org_id").unwrap(), b"org-xyz");
}

#[test]
fn missing_field_is_named() {
    match secret_from_body(KV_BODY, "secret/data/t", "no_such_field") {
        Err(e @ VaultError::FieldMissing { .. }) => assert!(e.message().contains("no_such_field")),
        other => panic!("unexpected: {:?}", other),
    }
}

#[test]
fn non_text_field_is_refused() {
    assert!(matches!(
        secret_from_body(KV_BODY, "secret/data/t", "n"),
        Err(VaultError::FieldNotText { .. })
    ));
}

#[test]
fn malformed_bodies_are_refused() {
    for body in [&b"not json"[..], b"[1,2]", b"{\"data\":{}}", b"{\"data\":{\"data\":null}}", b"{\"other\":1}"] {
        assert!(matches!(
            secret_from_body(body, "p", "f"),
            Err(VaultError::MalformedResponse { .. })
        ));
    }
}

#[test]
fn secret_from_object_reads_nested_entry() {
    let top: serde_json::Map<String, serde_json::Value> = serde_json::from_slice(KV_BODY).unwrap();
    assert_eq!(secret_from_object(&top, "p", "org_id").unwrap(), b"org-xyz");
}

#[test]
fn multibyte_secret_keeps_its_utf8_bytes() {
    let body = "{\"data\":{\"data\":{\"k\":\"clé\"}}}".as_bytes();
    assert_eq!(secret_from_body(body, "p", "k").unwrap(), "clé".as_bytes());
}

#[test]
fn take_read_steps() {
    let mut body = vec![9u8];
    assert!(matches!(take_read(&mut body, &[1, 2, 3], Some(2), 4), ReadStep::More));
    assert_eq!(body, vec![9, 1, 2]);
    assert!(matches!(take_read(&mut body, &[1, 2, 3], Some(0), 4), ReadStep::Done));
    assert_eq!(body, vec![9, 1, 2]);
    assert!(matches!(
        take_read(&mut body, &[1, 2, 3], Some(2), 4),
        ReadStep::Refused(VaultError::ResponseTooLarge { cap: 4 })
    ));
    assert_eq!(body, vec![9, 1, 2]);
    assert!(matches!(take_read(&mut body, &[1], None, 4), ReadStep::Refused(VaultError::ResponseRead)));
    assert_eq!(body, vec![9, 1, 2]);
}

struct Overreporting;
impl Read for Overreporting {
    fn read(&mut self, buf: &mut [u8]) -> std::io::Result<usize> {
        Ok(buf.len() + 1)
    }
}

#[test]
fn a_read_reporting_more_than_the_buffer_is_refused() {
    assert!(matches!(read_capped(Overreporting, 1 << 20), Err(VaultError::ResponseRead)));
}
