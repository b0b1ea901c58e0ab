//! A HashiCorp Vault KV v2 secret reader: the reference addressing, the
//! response checks and the answer interpretation, each with a proved contract.

pub mod text;
pub mod error;
pub mod json;
pub mod reference;
pub mod response;
pub mod module;
pub mod laws;
