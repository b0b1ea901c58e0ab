# busbar-hashicorp-vault

A reader of secrets from a HashiCorp Vault KV v2 engine, written in Verus.

A secret reference names a Vault path and one field of the KV v2 entry there,
either as a `#field` suffix on `path` or as an explicit `field` setting (which
wins where both are given). A read is one `GET {addr}/v1/{path}` with the
token in `X-Vault-Token`; a 404, a 403 and a 5xx answer each become their own
error, the body is capped, and the field is taken from `data.data`.

Layout:

- `src/` — the verified library: `reference` (addressing), `response`
  (status classes, the capped body, the field of a KV v2 entry), `module`
  (configuration, the URL of a read, and the answer to it), `json` (the model
  of the JSON objects read), `error`, `text`, and `laws` (properties proved
  over the whole).
- `tests/` — tests of the library on concrete values.
- `app/` — the plugin's edge: the open-time JSON config parsed with serde, the
  HTTP client and the one `GET` of each resolve.
