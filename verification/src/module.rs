//! The Vault secret module: its open-time configuration and the steps of a
//! resolve that decide, around the one HTTP read that the caller performs.

use vstd::prelude::*;
use crate::error::VaultError;
use crate::reference::{parse_reference, resolves_as};
use crate::json::{json_object, text_member};
use crate::text::{blank, is_blank};
use crate::response::{body_secret_as, check_status, refused_as, secret_from_body, status_class};

verus! {

/// The HTTP timeout (connect and total) where the configuration names none.
pub const DEFAULT_TIMEOUT_SECS: u64 = 10;

/// The module's open-time configuration (`secrets.<alias>.settings`).
pub struct VaultConfig {
    /// The Vault server address, e.g. `https://vault.internal:8200`.
    pub addr: String,
    /// The token sent as `X-Vault-Token` on every read.
    pub token: String,
    /// An additional trusted root CA (PEM), on top of the built-in roots.
    pub ca_cert_pem: Option<String>,
    /// The HTTP timeout (connect and total), in seconds.
    pub timeout_secs: u64,
}

impl VaultConfig {
    /// A configuration with the given address and token and the defaults
    /// for the rest: no extra CA and a timeout of `DEFAULT_TIMEOUT_SECS`.
    pub fn new(addr: String, token: String) -> (c: VaultConfig)
        ensures
            c.addr == addr,
            c.token == token,
            c.ca_cert_pem is None,
            c.timeout_secs == DEFAULT_TIMEOUT_SECS,
    {
        VaultConfig { addr, token, ca_cert_pem: None, timeout_secs: DEFAULT_TIMEOUT_SECS }
    }
}

/// `s` without its trailing `/` characters.
pub open spec fn trim_end_slashes(s: Seq<char>) -> Seq<char>
    decreases s.len(),
{
    if s.len() > 0 && s.last() == '/' {
        trim_end_slashes(s.drop_last())
    } else {
        s
    }
}

/// Strips the trailing `/` characters of `s`.
pub fn strip_trailing_slashes(s: &str) -> (r: String)
    ensures
        r@ == trim_end_slashes(s@),
{
    let n = s.unicode_len();
    let mut k: usize = n;
    assert(s@.take(n as int) =~= s@);
    while k > 0 && s.get_char(k - 1) == '/'
        invariant
            n == s@.len(),
            k <= n,
            trim_end_slashes(s@) == trim_end_slashes(s@.take(k as int)),
        decreases k,
    {
        assert(s@.take(k as int).drop_last() =~= s@.take(k - 1));
        k = k - 1;
    }
    let t = s.substring_char(0, k);
    assert(s@.subrange(0, k as int) =~= s@.take(k as int));
    t.to_owned()
}

/// The URL of a KV v2 read of `path` from the server at `base`:
/// `{base}/v1/{path}`, `path` taken verbatim.
pub open spec fn read_url(base: Seq<char>, path: Seq<char>) -> Seq<char> {
    base + "/v1/"@ + path
}

/// One read that a resolve asks for: the URL to `GET` with the module's
/// token, and the path and field it is for.
pub struct SecretRequest {
    pub url: String,
    pub path: String,
    pub field: String,
}

/// A Vault secret module: the server to read from and how.
pub struct VaultSecretModule {
    base_url: String,
    token: String,
    ca_cert_pem: Option<String>,
    timeout_secs: u64,
}

impl VaultSecretModule {
    /// The server address, without trailing `/`.
    pub closed spec fn base(&self) -> Seq<char> {
        self.base_url@
    }

    /// The token the module reads with.
    pub closed spec fn token_view(&self) -> Seq<char> {
        self.token@
    }

    /// The extra trusted root CA the module reads with, if any.
    pub closed spec fn ca_view(&self) -> Option<Seq<char>> {
        match self.ca_cert_pem {
            Some(p) => Some(p@),
            None => None,
        }
    }

    /// The HTTP timeout, in seconds.
    pub closed spec fn timeout_view(&self) -> u64 {
        self.timeout_secs
    }

    /// A module for the server and credentials that `cfg` names. The address
    /// loses its trailing `/` characters; everything else is kept as it is.
    pub fn new(cfg: &VaultConfig) -> (m: VaultSecretModule)
        ensures
            m.base() == trim_end_slashes(cfg.addr@),
            m.token_view() == cfg.token@,
            m.ca_view() == (match cfg.ca_cert_pem {
                Some(p) => Some(p@),
                None => None::<Seq<char>>,
            }),
            m.timeout_view() == cfg.timeout_secs,
    {
        let ca_cert_pem = match &cfg.ca_cert_pem {
            Some(p) => Some(p.clone()),
            None => None,
        };
        VaultSecretModule {
            base_url: strip_trailing_slashes(cfg.addr.as_str()),
            token: cfg.token.clone(),
            ca_cert_pem,
            timeout_secs: cfg.timeout_secs,
        }
    }

    /// The token to send as `X-Vault-Token`.
    pub fn token(&self) -> (t: &str)
        ensures
            t@ == self.token_view(),
    {
        self.token.as_str()
    }

    /// The extra trusted root CA (PEM), if any.
    pub fn ca_cert_pem(&self) -> (p: Option<&str>)
        ensures
            match p {
                Some(t) => self.ca_view() == Some(t@),
                None => self.ca_view() is None,
            },
    {
        match &self.ca_cert_pem {
            Some(p) => Some(p.as_str()),
            None => None,
        }
    }

    /// The HTTP timeout, in seconds.
    pub fn timeout_secs(&self) -> (t: u64)
        ensures
            t == self.timeout_view(),
    {
        self.timeout_secs
    }

    /// The URL of a KV v2 read of `path`: `{addr}/v1/{path}`.
    pub fn secret_url(&self, path: &str) -> (url: String)
        ensures
            url@ == read_url(self.base(), path@),
    {
        let mut url = self.base_url.clone();
        url.append("/v1/");
        url.append(path);
        url
    }

    /// The read that resolving a reference with settings `settings` asks
    /// for, or why the reference names none.
    pub fn prepare(&self, settings: &serde_json::Map<String, serde_json::Value>) -> (r: Result<SecretRequest, VaultError>)
        ensures
            ({
                let path = text_member(json_object(*settings), "path"@);
                let field = text_member(json_object(*settings), "field"@);
                match r {
                    Ok(req) => resolves_as(Ok((req.path, req.field)), path, field)
                        && req.url@ == read_url(self.base(), req.path@),
                    Err(e) => resolves_as(Err(e), path, field),
                }
            }),
    {
        match parse_reference(settings) {
            Err(e) => Err(e),
            Ok((path, field)) => {
                let url = self.secret_url(path.as_str());
                Ok(SecretRequest { url, path, field })
            },
        }
    }

    /// The secret that the read `req` yields where Vault answered it with
    /// `status` and `body`: a secret only from a successful answer whose KV v2
    /// entry holds the field as a string; otherwise the error that says why.
    pub fn answer(&self, req: &SecretRequest, status: u16, body: &[u8]) -> (r: Result<Vec<u8>, VaultError>)
        ensures
            status_class(status) is Success ==> body_secret_as(r, body@, req.path@, req.field@),
            !(status_class(status) is Success) ==> (r matches Err(e) && refused_as(e, status, req.path@)),
    {
        match check_status(status, req.path.as_str()) {
            Err(e) => Err(e),
            Ok(()) => secret_from_body(body, req.path.as_str(), req.field.as_str()),
        }
    }
}

/// The plugin a configuration is opened for; its name stands in the
/// messages a configuration is refused with.
#[derive(Debug, Clone, Copy, PartialEq, Eq, Structural)]
pub enum Plugin {
    /// The `hashicorp-vault` plugin.
    HashicorpVault,
    /// The `secret-vault` plugin.
    SecretVault,
}

/// The name of `plugin` as its messages give it.
pub open spec fn plugin_name(plugin: Plugin) -> Seq<char> {
    match plugin {
        Plugin::HashicorpVault => "hashicorp-vault"@,
        Plugin::SecretVault => "secret-vault"@,
    }
}

impl Plugin {
    /// The name of this plugin as its messages give it.
    pub fn name(&self) -> (n: &'static str)
        ensures
            n@ == plugin_name(*self),
    {
        match self {
            Plugin::HashicorpVault => "hashicorp-vault",
            Plugin::SecretVault => "secret-vault",
        }
    }
}

/// The message an absent or blank configuration of `plugin` is refused with.
pub open spec fn missing_config_message(plugin: Plugin) -> Seq<char> {
    plugin_name(plugin) + " plugin requires config (addr, token); none provided"@
}

/// The prefix of the message an unreadable configuration of `plugin` is
/// refused with.
pub open spec fn invalid_config_prefix(plugin: Plugin) -> Seq<char> {
    "invalid "@ + plugin_name(plugin) + " plugin config: "@
}

/// Refuses an open-time configuration text of `plugin` that is empty or all
/// whitespace: a module with no address or token can never resolve anything.
pub fn check_config_text(plugin: Plugin, cfg: &str) -> (r: Result<(), String>)
    ensures
        r is Ok <==> !blank(cfg@),
        r matches Err(m) ==> m@ == missing_config_message(plugin),
{
    if is_blank(cfg) {
        let mut m = String::new();
        m.append(plugin.name());
        m.append(" plugin requires config (addr, token); none provided");
        Err(m)
    } else {
        Ok(())
    }
}

/// The message a configuration of `plugin` that does not parse is refused
/// with.
pub fn invalid_config_message(plugin: Plugin, detail: &str) -> (m: String)
    ensures
        m@ == invalid_config_prefix(plugin) + detail@,
{
    let mut m = String::new();
    m.append("invalid ");
    m.append(plugin.name());
    m.append(" plugin config: ");
    m.append(detail);
    m
}

} // verus!
