# bronze_magpie

The library behind a small personal web server that serves a website over TLS and keeps its
certificate renewed through ACME (Let's Encrypt, TLS-ALPN-01 challenge).

The website's files come from an `assets/` folder that is not part of these sources. The
library lists their paths and content types, but holds no bytes for them: until the files'
bytes are added to the table in `src/website.rs`, every page is served empty.

`src/` is verified with Verus:

- `website` — the website's file table (paths; no contents, see above) and lookup by path.
- `content` — file extensions, content types, and the answer to a request for a file.
- `cert` — generating, loading (for rustls), caching and reading back certificates.
- `keys` — the trusted calls into rustls, rustls-pemfile, rcgen and x509-parser.
- `renewal` — when a certificate is due for renewal, and the state machine of one renewal.
- `tls` — which certificate answers a client hello; the listening port and address.
- `access` — the fields of an access-log line.
- `text` — character-level helpers on string slices.

`app/` is the server program: HTTP routing (axum), the TLS listener (tokio, tokio-rustls), the
certificate resolver, the ACME client calls (instant-acme) and the renewal loop that drives
`renewal::step` (written, but the server does not start it), and logging (tracing).
