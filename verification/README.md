# wry_ohos

A webview backend for OpenHarmony.

- `src/` is the library, verified with Verus. It decides: what the platform is to
  build for a new webview and in which order, which call on the platform's webview an
  operation stands for, what a failure is reported as, where a cookie is stored and
  how it is written and read, when a page may be printed, and when a child webview is
  taken down. `cookie_laws.rs`, `webview_laws.rs` and `color.rs` hold what is proved of
  every cookie, every history of a webview and every colour.
- `app/` makes the calls on the platform (`openharmony-ability`), runs the
  application's handlers and converts between its types and the library's.
- `tests/` runs the library, with the real `cookie` and `http` crates.

What the proofs take on trust is marked `external_body` and says so above it:
`cookie::Cookie::parse`, `str::parse::<http::Uri>` and `http::Uri::from_static`.
