//! Secret references: which Vault path to read and which field of the
//! KV v2 entry there to extract.
//!
//! A reference names the field in one of two forms: a `#field` suffix on
//! `path` (`"kv/data/openai#api_key"`), or an explicit `field` setting
//! (`"path": "kv/data/openai", "field": "api_key"`). Where both are given the
//! explicit `field` wins and `path` is taken verbatim, `#` included.

use vstd::prelude::*;
use crate::error::VaultError;
use crate::json::{json_object, lookup, text_member, Member};
use crate::text::{find_last, last_index, lemma_last_index};

verus! {

/// Why a reference names no `(path, field)` pair.
pub enum ReferenceFault {
    MissingPath,
    EmptyField,
    NoField,
}

/// The `(path, field)` pair that a reference with string settings `path`
/// and `field` (`None` where the setting is absent or not a string) names.
pub open spec fn reference_of(path: Option<Seq<char>>, field: Option<Seq<char>>) -> Result<(Seq<char>, Seq<char>), ReferenceFault> {
    match path {
        None => Err(ReferenceFault::MissingPath),
        Some(p) => match field {
            Some(f) => if f.len() == 0 {
                Err(ReferenceFault::EmptyField)
            } else {
                Ok((p, f))
            },
            None => match last_index(p, '#') {
                None => Err(ReferenceFault::NoField),
                Some(i) => if i + 1 == p.len() {
                    Err(ReferenceFault::NoField)
                } else {
                    Ok((p.take(i), p.skip(i + 1)))
                },
            },
        },
    }
}

/// `r` is what a reference with settings `path` and `field` resolves to.
pub open spec fn resolves_as(
    r: Result<(String, String), VaultError>,
    path: Option<Seq<char>>,
    field: Option<Seq<char>>,
) -> bool {
    match reference_of(path, field) {
        Ok((p, f)) => r matches Ok((rp, rf)) && rp@ == p && rf@ == f,
        Err(ReferenceFault::MissingPath) => r matches Err(VaultError::MissingPath),
        Err(ReferenceFault::EmptyField) => r matches Err(VaultError::EmptyField),
        Err(ReferenceFault::NoField) => r matches Err(VaultError::NoField { path: ep }) && ep@
            == path->0,
    }
}

/// The `Option` view of an optional text.
pub open spec fn opt_view(s: Option<&str>) -> Option<Seq<char>> {
    match s {
        Some(t) => Some(t@),
        None => None,
    }
}

/// Resolves a reference from its `path` and `field` settings (`None` where a
/// setting is absent or not a string) to the Vault path to read and the
/// field to extract.
pub fn resolve_reference(path: Option<&str>, field: Option<&str>) -> (r: Result<(String, String), VaultError>)
    ensures
        resolves_as(r, opt_view(path), opt_view(field)),
{
    let p = match path {
        None => return Err(VaultError::MissingPath),
        Some(p) => p,
    };
    match field {
        Some(f) => {
            if f.unicode_len() == 0 {
                Err(VaultError::EmptyField)
            } else {
                Ok((p.to_owned(), f.to_owned()))
            }
        },
        None => {
            proof {
                lemma_last_index(p@, '#');
            }
            let n = p.unicode_len();
            match find_last(p, '#') {
                None => Err(VaultError::NoField { path: p.to_owned() }),
                Some(i) => {
                    if i + 1 == n {
                        Err(VaultError::NoField { path: p.to_owned() })
                    } else {
                        let before = p.substring_char(0, i);
                        let after = p.substring_char(i + 1, n);
                        assert(p@.subrange(0, i as int) =~= p@.take(i as int));
                        assert(p@.subrange(i + 1, n as int) =~= p@.skip(i + 1));
                        Ok((before.to_owned(), after.to_owned()))
                    }
                },
            }
        },
    }
}

/// The text of a member that holds a string.
fn member_text<'a>(m: Member<'a>) -> (r: Option<&'a str>)
    ensures
        match m {
            Member::Text(s) => opt_view(r) == Some(s@),
            _ => r is None,
        },
{
    match m {
        Member::Text(s) => Some(s.as_str()),
        _ => None,
    }
}

/// Resolves a reference's settings map (`{"path": ..., "field": ...}`) to
/// the Vault path to read and the field to extract. Settings that are not
/// strings count as absent; other settings are not read.
pub fn parse_reference(settings: &serde_json::Map<String, serde_json::Value>) -> (r: Result<(String, String), VaultError>)
    ensures
        resolves_as(
            r,
            text_member(json_object(*settings), "path"@),
            text_member(json_object(*settings), "field"@),
        ),
{
    let path = member_text(lookup(settings, "path"));
    let field = member_text(lookup(settings, "field"));
    resolve_reference(path, field)
}

} // verus!
