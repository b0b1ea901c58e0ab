//! Properties of the library as a whole, proved over the specifications
//! that the functions' contracts use.

use vstd::prelude::*;
use crate::reference::{reference_of, ReferenceFault};
use crate::text::{last_index, lemma_last_index};
use crate::module::{read_url, trim_end_slashes};
use crate::response::{kv_field, secret_as, SecretFault};
use crate::json::JsonSlot;
use vstd::utf8::encode_utf8;
use crate::error::{message_of, VaultError};

verus! {

/// The last `#` of `p`, a `#`, then a text without `#` is the `#` that
/// stands between them.
proof fn lemma_last_hash_of_joined(p: Seq<char>, f: Seq<char>)
    requires
        forall|i: int| 0 <= i < f.len() ==> f[i] != '#',
    ensures
        last_index(p.push('#') + f, '#') == Some(p.len() as int),
    decreases f.len(),
{
    let s = p.push('#') + f;
    if f.len() == 0 {
        assert(s =~= p.push('#'));
    } else {
        assert(s.last() == f.last());
        assert(s.drop_last() =~= p.push('#') + f.drop_last());
        lemma_last_hash_of_joined(p, f.drop_last());
    }
}

/// Both forms of naming a field address the same secret: a path `p` with
/// the suffix `#f` names what the path `p` with the explicit field `f` names,
/// for every non-empty field `f` without `#`.
pub proof fn law_suffix_and_explicit_field_agree(p: Seq<char>, f: Seq<char>)
    requires
        f.len() > 0,
        forall|i: int| 0 <= i < f.len() ==> f[i] != '#',
    ensures
        reference_of(Some(p.push('#') + f), None) == reference_of(Some(p), Some(f)),
        reference_of(Some(p), Some(f)) == Ok::<(Seq<char>, Seq<char>), ReferenceFault>((p, f)),
{
    lemma_last_hash_of_joined(p, f);
    let s = p.push('#') + f;
    assert(s.take(p.len() as int) =~= p);
    assert(s.skip(p.len() + 1int) =~= f);
}

/// An explicit non-empty field wins over a `#` in the path: the path is then
/// taken verbatim, whatever it holds.
pub proof fn law_explicit_field_wins(path: Seq<char>, field: Seq<char>)
    requires
        field.len() > 0,
    ensures
        reference_of(Some(path), Some(field)) == Ok::<(Seq<char>, Seq<char>), ReferenceFault>((path, field)),
{
}

/// A resolved reference always names a non-empty field. Where the field came
/// from a `#` suffix, it holds no `#`, and putting path, `#` and field back
/// together gives the path setting again.
pub proof fn law_resolved_field(path: Option<Seq<char>>, field: Option<Seq<char>>)
    ensures
        reference_of(path, field) matches Ok((p, f)) ==> {
            &&& f.len() > 0
            &&& field is None ==> {
                &&& path == Some(p.push('#') + f)
                &&& forall|i: int| 0 <= i < f.len() ==> f[i] != '#'
            }
        },
{
    if let Some(s) = path {
        if field is None {
            lemma_last_index(s, '#');
            if let Some(i) = last_index(s, '#') {
                if i + 1 != s.len() {
                    assert(s.take(i).push('#') + s.skip(i + 1) =~= s);
                    let f = s.skip(i + 1);
                    assert forall|j: int| 0 <= j < f.len() implies #[trigger] f[j] != '#' by {
                        assert(f[j] == s[i + 1 + j]);
                    }
                }
            }
        }
    }
}

/// The server address a module keeps never ends in `/`, is a prefix of the
/// configured address, and trimming it again changes nothing.
pub proof fn law_trimmed_address(addr: Seq<char>)
    ensures
        trim_end_slashes(addr).len() > 0 ==> trim_end_slashes(addr).last() != '/',
        trim_end_slashes(addr).len() <= addr.len(),
        trim_end_slashes(addr) =~= addr.take(trim_end_slashes(addr).len() as int),
        trim_end_slashes(trim_end_slashes(addr)) == trim_end_slashes(addr),
    decreases addr.len(),
{
    if addr.len() > 0 && addr.last() == '/' {
        law_trimmed_address(addr.drop_last());
        let t = trim_end_slashes(addr.drop_last());
        assert(addr.drop_last().take(t.len() as int) =~= addr.take(t.len() as int));
    } else {
        assert(addr.take(addr.len() as int) =~= addr);
    }
}

/// A missing secret and a refused token are reported apart: the message of
/// a 404 names `404`, that of a 403 names `403`, and each names the path.
pub proof fn law_status_messages(path: String)
    ensures
        message_of(VaultError::NotFound { path }).subrange(15, 18) == "404"@,
        message_of(VaultError::Forbidden { path }).subrange(15, 18) == "403"@,
        message_of(VaultError::NotFound { path }).subrange(44, 44int + path@.len()) == path@,
        message_of(VaultError::Forbidden { path }).subrange(34, 34int + path@.len()) == path@,
{
    reveal_strlit("404");
    reveal_strlit("403");
    reveal_strlit("vault returned 404 Not Found: no secret at `");
    reveal_strlit("vault returned 403 Forbidden for `");
    reveal_strlit("`");
    reveal_strlit("`: bad token or missing policy");
    assert(message_of(VaultError::NotFound { path }).subrange(15, 18) =~= "404"@);
    assert(message_of(VaultError::Forbidden { path }).subrange(15, 18) =~= "403"@);
    assert(message_of(VaultError::NotFound { path }).subrange(44, 44int + path@.len()) =~= path@);
    assert(message_of(VaultError::Forbidden { path }).subrange(34, 34int + path@.len()) =~= path@);
}

/// A field that the secret lacks is reported by name.
pub proof fn law_missing_field_message(path: String, field: String)
    ensures
        ({
            let m = message_of(VaultError::FieldMissing { path, field });
            let at: int = (17 + path@.len() + 16) as int;
            m.subrange(at, at + field@.len()) == field@
        }),
{
    reveal_strlit("vault secret at `");
    reveal_strlit("` has no field `");
    reveal_strlit("`");
    let m = message_of(VaultError::FieldMissing { path, field });
    let at: int = (17 + path@.len() + 16) as int;
    assert(m.subrange(at, at + field@.len()) =~= field@);
}

/// The URL of a read is the server address, `/v1/`, then the path itself,
/// character for character: nothing of the path is changed, dropped or
/// added.
pub proof fn law_read_url_keeps_the_path(base: Seq<char>, path: Seq<char>)
    ensures
        read_url(base, path).len() == base.len() + 4 + path.len(),
        read_url(base, path).take(base.len() as int) == base,
        read_url(base, path).subrange(base.len() as int, base.len() + 4int) == seq!['/', 'v', '1', '/'],
        read_url(base, path).skip(base.len() + 4int) == path,
        forall|i: int| 0 <= i < path.len() ==> read_url(base, path)[base.len() + 4int + i] == path[i],
{
    reveal_strlit("/v1/");
    let u = read_url(base, path);
    assert(u.take(base.len() as int) =~= base);
    assert(u.subrange(base.len() as int, base.len() + 4int) =~= seq!['/', 'v', '1', '/']);
    assert(u.skip(base.len() + 4int) =~= path);
}

/// Reading a field out of a KV v2 response looks up exactly the named key
/// of the entry at `data.data`: where the entry holds a string under that
/// key the field is that string, unchanged; where it holds no such key the
/// field is missing; where it holds something else under it, the field is
/// not a string.
pub proof fn law_kv_field_reads_the_named_key(
    top: Map<Seq<char>, JsonSlot>,
    outer: Map<Seq<char>, JsonSlot>,
    entry: Map<Seq<char>, JsonSlot>,
    field: Seq<char>,
)
    requires
        top.contains_key("data"@),
        top["data"@] == JsonSlot::Object(outer),
        outer.contains_key("data"@),
        outer["data"@] == JsonSlot::Object(entry),
    ensures
        forall|s: Seq<char>| entry.contains_key(field) && entry[field] == JsonSlot::Text(s)
            ==> kv_field(top, field) == Ok::<Seq<char>, SecretFault>(s),
        !entry.contains_key(field) ==> kv_field(top, field) == Err::<Seq<char>, SecretFault>(SecretFault::FieldMissing),
        entry.contains_key(field) && !(entry[field] is Text) ==> kv_field(top, field)
            == Err::<Seq<char>, SecretFault>(SecretFault::FieldNotText),
{
}

/// A response without an object at `data.data` holds no secret.
pub proof fn law_kv_field_needs_the_entry(top: Map<Seq<char>, JsonSlot>, field: Seq<char>)
    requires
        !top.contains_key("data"@) || !(top["data"@] is Object),
    ensures
        kv_field(top, field) == Err::<Seq<char>, SecretFault>(SecretFault::Malformed),
{
}

/// The bytes a read of a field gives are the UTF-8 encoding of the very
/// string the entry holds under that key; a key the entry lacks is reported
/// by its own name.
pub proof fn law_secret_is_the_stored_string(
    r: Result<Vec<u8>, VaultError>,
    top: Map<Seq<char>, JsonSlot>,
    outer: Map<Seq<char>, JsonSlot>,
    entry: Map<Seq<char>, JsonSlot>,
    path: Seq<char>,
    field: Seq<char>,
)
    requires
        top.contains_key("data"@),
        top["data"@] == JsonSlot::Object(outer),
        outer.contains_key("data"@),
        outer["data"@] == JsonSlot::Object(entry),
        secret_as(r, kv_field(top, field), path, field),
    ensures
        forall|s: Seq<char>| entry.contains_key(field) && entry[field] == JsonSlot::Text(s)
            ==> (r matches Ok(b) && b@ == encode_utf8(s)),
        !entry.contains_key(field) ==> (r matches Err(VaultError::FieldMissing { path: p, field: f })
            && p@ == path && f@ == field),
{
    law_kv_field_reads_the_named_key(top, outer, entry, field);
}

} // verus!
