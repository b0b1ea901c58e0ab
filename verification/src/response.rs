//! Vault's answer to a read: the status classification, the capped body and
//! the field extracted from a KV v2 entry.

use vstd::prelude::*;
use crate::error::VaultError;
use crate::json::{json_object, json_object_text, lookup, parse_object, JsonSlot, Member};
use vstd::utf8::encode_utf8;

verus! {

#[verifier::external_type_specification]
#[verifier::external_body]
pub struct ExIoError(std::io::Error);

/// The most bytes of a response body that a resolve accepts.
pub const MAX_RESPONSE_BYTES: usize = 1048576;

/// The size of the buffer one read fills.
pub const READ_CHUNK_BYTES: usize = 8192;

/// How a status that Vault answered with is classified.
pub enum StatusClass {
    Success,
    NotFound,
    Forbidden,
    ServerError,
    Unexpected,
}

/// The class of an HTTP status: any 2xx is a success; 404, 403 and 5xx are
/// the classified failures; anything else is unexpected.
pub open spec fn status_class(status: u16) -> StatusClass {
    if 200 <= status <= 299 {
        StatusClass::Success
    } else if status == 404 {
        StatusClass::NotFound
    } else if status == 403 {
        StatusClass::Forbidden
    } else if 500 <= status <= 599 {
        StatusClass::ServerError
    } else {
        StatusClass::Unexpected
    }
}

/// `e` is the error a read of `path` answered with the failing `status`
/// is refused with.
pub open spec fn refused_as(e: VaultError, status: u16, path: Seq<char>) -> bool {
    match status_class(status) {
        StatusClass::Success => false,
        StatusClass::NotFound => e matches VaultError::NotFound { path: p } && p@ == path,
        StatusClass::Forbidden => e matches VaultError::Forbidden { path: p } && p@ == path,
        StatusClass::ServerError => e matches VaultError::ServerError { status: s } && s == status,
        StatusClass::Unexpected => e matches VaultError::UnexpectedStatus { status: s } && s == status,
    }
}

/// Checks the status Vault answered a read of `path` with: a success passes,
/// each failure becomes its own error.
pub fn check_status(status: u16, path: &str) -> (r: Result<(), VaultError>)
    ensures
        r is Ok <==> status_class(status) is Success,
        r matches Err(e) ==> refused_as(e, status, path@),
{
    if 200 <= status && status <= 299 {
        Ok(())
    } else if status == 404 {
        Err(VaultError::NotFound { path: path.to_owned() })
    } else if status == 403 {
        Err(VaultError::Forbidden { path: path.to_owned() })
    } else if 500 <= status && status <= 599 {
        Err(VaultError::ServerError { status })
    } else {
        Err(VaultError::UnexpectedStatus { status })
    }
}

/// Adds the first `n` bytes of `chunk` to `body` where the result stays
/// within `cap` bytes; otherwise leaves `body` as it is.
pub fn append_capped(body: &mut Vec<u8>, chunk: &[u8], n: usize, cap: usize) -> (fits: bool)
    requires
        n <= chunk@.len(),
    ensures
        fits == (old(body)@.len() + n <= cap),
        fits ==> final(body)@ == old(body)@ + chunk@.take(n as int),
        !fits ==> final(body)@ == old(body)@,
{
    if body.len() > cap || n > cap - body.len() {
        return false;
    }
    let ghost start = body@;
    let mut i: usize = 0;
    while i < n
        invariant
            i <= n,
            n <= chunk@.len(),
            body@ == start + chunk@.take(i as int),
        decreases n - i,
    {
        body.push(chunk[i]);
        assert(chunk@.take(i + 1) =~= chunk@.take(i as int).push(chunk@[i as int]));
        i = i + 1;
    }
    true
}

/// Calls `std::io::Read::read` once on the buffer's slice, which keeps its
/// length. The count a read reports is whatever the reader says: std asks
/// readers to report no more than the buffer holds but, the trait being safe
/// to implement, does not let callers rely on it; which bytes come, and how
/// many, is left unsaid.
#[verifier::external_body]
fn read_some<R: std::io::Read>(reader: &mut R, buf: &mut Vec<u8>) -> (r: Result<usize, std::io::Error>)
    ensures
        final(buf)@.len() == old(buf)@.len(),
{
    reader.read(buf)
}

/// What one read of the body leads to.
#[derive(Debug)]
pub enum ReadStep {
    /// The reader reported the end of the body: the body is complete.
    Done,
    /// The bytes were kept; read on.
    More,
    /// The body is refused.
    Refused(VaultError),
}

/// Takes the outcome of one read into the body collected so far: `got` is
/// the number of bytes the read put at the front of `chunk`, or `None` where
/// the read failed. The end of the body is a read of no bytes; a body that
/// would grow past `cap` bytes is refused.
pub fn take_read(body: &mut Vec<u8>, chunk: &[u8], got: Option<usize>, cap: usize) -> (step: ReadStep)
    requires
        got matches Some(n) ==> n <= chunk@.len(),
    ensures
        match got {
            None => step matches ReadStep::Refused(VaultError::ResponseRead) && final(body)@ == old(body)@,
            Some(n) => if n == 0 {
                step is Done && final(body)@ == old(body)@
            } else if old(body)@.len() + n <= cap {
                step is More && final(body)@ == old(body)@ + chunk@.take(n as int)
            } else {
                step matches ReadStep::Refused(VaultError::ResponseTooLarge { cap: c }) && c == cap
                    && final(body)@ == old(body)@
            },
        },
{
    match got {
        None => ReadStep::Refused(VaultError::ResponseRead),
        Some(n) => {
            if n == 0 {
                ReadStep::Done
            } else if append_capped(body, chunk, n, cap) {
                ReadStep::More
            } else {
                ReadStep::Refused(VaultError::ResponseTooLarge { cap })
            }
        },
    }
}

/// Reads all of `reader`, refusing a body of more than `cap` bytes. Which
/// bytes the reader yields is up to the reader; each read is taken as
/// `take_read` says, so a read that fails, for whatever reason, refuses the
/// body, and so does a read that reports more bytes than the buffer holds.
/// A reader that blocks for ever, or panics, in `read` does so here too.
pub fn read_capped<R: std::io::Read>(reader: R, cap: usize) -> (r: Result<Vec<u8>, VaultError>)
    ensures
        r matches Ok(body) ==> body@.len() <= cap,
        r matches Err(e) ==> (e matches VaultError::ResponseTooLarge { cap: c } && c == cap)
            || e is ResponseRead,
{
    let mut reader = reader;
    let mut body: Vec<u8> = Vec::new();
    let mut buf: Vec<u8> = vec![0u8; READ_CHUNK_BYTES];
    loop
        invariant
            body@.len() <= cap,
        decreases cap - body@.len(),
    {
        let got = match read_some(&mut reader, &mut buf) {
            Err(_) => None,
            Ok(n) => if n <= buf.len() {
                Some(n)
            } else {
                None
            },
        };
        match take_read(&mut body, buf.as_slice(), got, cap) {
            ReadStep::Done => {
                return Ok(body);
            },
            ReadStep::More => {},
            ReadStep::Refused(e) => {
                return Err(e);
            },
        }
    }
}

/// What reading `field` out of a KV v2 read response with members `top`
/// gives: the text of the field, or why there is none.
pub enum SecretFault {
    Malformed,
    FieldMissing,
    FieldNotText,
}

/// The KV v2 entry (`data.data`) of a read response with members `top`.
pub open spec fn kv_entry(top: Map<Seq<char>, JsonSlot>) -> Option<Map<Seq<char>, JsonSlot>> {
    if top.contains_key("data"@) {
        match top["data"@] {
            JsonSlot::Object(outer) => if outer.contains_key("data"@) {
                match outer["data"@] {
                    JsonSlot::Object(entry) => Some(entry),
                    _ => None,
                }
            } else {
                None
            },
            _ => None,
        }
    } else {
        None
    }
}

/// The text of `field` in a read response with members `top`.
pub open spec fn kv_field(top: Map<Seq<char>, JsonSlot>, field: Seq<char>) -> Result<Seq<char>, SecretFault> {
    match kv_entry(top) {
        None => Err(SecretFault::Malformed),
        Some(entry) => if !entry.contains_key(field) {
            Err(SecretFault::FieldMissing)
        } else {
            match entry[field] {
                JsonSlot::Text(s) => Ok(s),
                _ => Err(SecretFault::FieldNotText),
            }
        },
    }
}

/// `r` is what reading `field` of the secret at `path` out of the outcome
/// `v` gives.
pub open spec fn secret_as(
    r: Result<Vec<u8>, VaultError>,
    v: Result<Seq<char>, SecretFault>,
    path: Seq<char>,
    field: Seq<char>,
) -> bool {
    match v {
        Ok(s) => r matches Ok(bytes) && bytes@ == encode_utf8(s),
        Err(SecretFault::Malformed) => r matches Err(VaultError::MalformedResponse { path: p })
            && p@ == path,
        Err(SecretFault::FieldMissing) => r matches Err(VaultError::FieldMissing { path: p, field: f })
            && p@ == path && f@ == field,
        Err(SecretFault::FieldNotText) => r matches Err(VaultError::FieldNotText { path: p, field: f })
            && p@ == path && f@ == field,
    }
}

/// Reads `field` of the secret at `path` out of a parsed KV v2 read
/// response, as the UTF-8 bytes of its text.
pub fn secret_from_object(
    top: &serde_json::Map<String, serde_json::Value>,
    path: &str,
    field: &str,
) -> (r: Result<Vec<u8>, VaultError>)
    ensures
        secret_as(r, kv_field(json_object(*top), field@), path@, field@),
{
    let outer = match lookup(top, "data") {
        Member::Object(m) => m,
        _ => return Err(VaultError::MalformedResponse { path: path.to_owned() }),
    };
    let entry = match lookup(outer, "data") {
        Member::Object(m) => m,
        _ => return Err(VaultError::MalformedResponse { path: path.to_owned() }),
    };
    match lookup(entry, field) {
        Member::Text(s) => Ok(s.as_str().as_bytes_vec()),
        Member::Absent => Err(VaultError::FieldMissing { path: path.to_owned(), field: field.to_owned() }),
        _ => Err(VaultError::FieldNotText { path: path.to_owned(), field: field.to_owned() }),
    }
}

/// `r` is what reading `field` of the secret at `path` out of the response
/// body `body` gives.
pub open spec fn body_secret_as(r: Result<Vec<u8>, VaultError>, body: Seq<u8>, path: Seq<char>, field: Seq<char>) -> bool {
    match json_object_text(body) {
        None => r matches Err(VaultError::MalformedResponse { path: p }) && p@ == path,
        Some(top) => secret_as(r, kv_field(top, field), path, field),
    }
}

/// Reads `field` of the secret at `path` out of the body of a KV v2 read
/// response.
pub fn secret_from_body(body: &[u8], path: &str, field: &str) -> (r: Result<Vec<u8>, VaultError>)
    ensures
        body_secret_as(r, body@, path@, field@),
{
    match parse_object(body) {
        Err(_) => Err(VaultError::MalformedResponse { path: path.to_owned() }),
        Ok(top) => secret_from_object(&top, path, field),
    }
}

} // verus!
