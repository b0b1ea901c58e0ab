//! The errors of reading a secret, each with the message it is reported by.

use vstd::prelude::*;
use crate::text::{decimal, decimal_text};

verus! {

/// Why a secret could not be read.
#[derive(Debug)]
pub enum VaultError {
    /// The reference settings hold no string `path`.
    MissingPath,
    /// The reference settings name an explicit `field` that is empty.
    EmptyField,
    /// The path carries no `#field` suffix (or an empty one) and no explicit
    /// `field` is given.
    NoField { path: String },
    /// Vault answered 404: no secret at the path.
    NotFound { path: String },
    /// Vault answered 403: a bad token or a missing policy.
    Forbidden { path: String },
    /// Vault answered with a 5xx status: Vault itself is unhealthy.
    ServerError { status: u16 },
    /// Vault answered with a status that is neither a success nor one of the
    /// classified failures.
    UnexpectedStatus { status: u16 },
    /// The response body holds more bytes than the cap allows.
    ResponseTooLarge { cap: usize },
    /// Reading the response body failed.
    ResponseRead,
    /// The body is not a KV v2 read response (`{"data": {"data": {...}}}`).
    MalformedResponse { path: String },
    /// The secret at the path has no such field.
    FieldMissing { path: String, field: String },
    /// The field exists but does not hold a string.
    FieldNotText { path: String, field: String },
}

/// The message a `VaultError` is reported by.
pub open spec fn message_of(e: VaultError) -> Seq<char> {
    match e {
        VaultError::MissingPath => "vault reference settings need a string `path`"@,
        VaultError::EmptyField => "vault reference `field` must not be empty"@,
        VaultError::NoField { path } =>
            "vault reference path `"@ + path@
                + "` names no field to extract (append `#field` or set `field`)"@,
        VaultError::NotFound { path } => "vault returned 404 Not Found: no secret at `"@ + path@ + "`"@,
        VaultError::Forbidden { path } =>
            "vault returned 403 Forbidden for `"@ + path@ + "`: bad token or missing policy"@,
        VaultError::ServerError { status } =>
            "vault returned "@ + decimal(status as nat) + ": the vault server is unhealthy"@,
        VaultError::UnexpectedStatus { status } =>
            "vault returned unexpected HTTP status "@ + decimal(status as nat),
        VaultError::ResponseTooLarge { cap } =>
            "vault response exceeds the cap of "@ + decimal(cap as nat) + " bytes"@,
        VaultError::ResponseRead => "failed to read the vault response"@,
        VaultError::MalformedResponse { path } =>
            "vault response for `"@ + path@ + "` is not a KV v2 secret"@,
        VaultError::FieldMissing { path, field } =>
            "vault secret at `"@ + path@ + "` has no field `"@ + field@ + "`"@,
        VaultError::FieldNotText { path, field } =>
            "vault secret field `"@ + field@ + "` at `"@ + path@ + "` is not a string"@,
    }
}

impl VaultError {
    /// The message this error is reported by.
    pub fn message(&self) -> (m: String)
        ensures
            m@ == message_of(*self),
    {
        let mut m = String::new();
        match self {
            VaultError::MissingPath => {
                m.append("vault reference settings need a string `path`");
            },
            VaultError::EmptyField => {
                m.append("vault reference `field` must not be empty");
            },
            VaultError::NoField { path } => {
                m.append("vault reference path `");
                m.append(path.as_str());
                m.append("` names no field to extract (append `#field` or set `field`)");
            },
            VaultError::NotFound { path } => {
                m.append("vault returned 404 Not Found: no secret at `");
                m.append(path.as_str());
                m.append("`");
            },
            VaultError::Forbidden { path } => {
                m.append("vault returned 403 Forbidden for `");
                m.append(path.as_str());
                m.append("`: bad token or missing policy");
            },
            VaultError::ServerError { status } => {
                m.append("vault returned ");
                let d = decimal_text(*status as u64);
                m.append(d.as_str());
                m.append(": the vault server is unhealthy");
            },
            VaultError::UnexpectedStatus { status } => {
                m.append("vault returned unexpected HTTP status ");
                let d = decimal_text(*status as u64);
                m.append(d.as_str());
            },
            VaultError::ResponseTooLarge { cap } => {
                m.append("vault response exceeds the cap of ");
                let d = decimal_text(*cap as u64);
                m.append(d.as_str());
                m.append(" bytes");
            },
            VaultError::ResponseRead => {
                m.append("failed to read the vault response");
            },
            VaultError::MalformedResponse { path } => {
                m.append("vault response for `");
                m.append(path.as_str());
                m.append("` is not a KV v2 secret");
            },
            VaultError::FieldMissing { path, field } => {
                m.append("vault secret at `");
                m.append(path.as_str());
                m.append("` has no field `");
                m.append(field.as_str());
                m.append("`");
            },
            VaultError::FieldNotText { path, field } => {
                m.append("vault secret field `");
                m.append(field.as_str());
                m.append("` at `");
                m.append(path.as_str());
                m.append("` is not a string");
            },
        }
        m
    }
}

} // verus!
