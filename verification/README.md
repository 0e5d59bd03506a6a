# Unified Hi-Fi Control: the web client

The web client of a bridge that joins Roon, Logitech Media Server, HQPlayer,
OpenHome, UPnP, Spotify, Apple Music and Music Assistant zones into one system.

- `src/` decides: what an event makes a page fetch again, what a form sends and
  does with the answer, how zones are grouped and ordered, what a library level
  shows, what every status line says. Each function carries a contract that Verus
  proves, and the properties that span functions stand beside them as proof
  functions.
- `src/text.rs`, `src/url.rs`, `src/seqs.rs` and `src/sorting.rs` hold the
  vocabulary that the contracts are written in.
- `src/pages/` has one module for each page.
- `app/` draws: Dioxus components, the browser, and the bridge's HTTP interface.
- `tests/` runs the library on concrete values.

The bridge may be served below a base path, as by a proxy. The document then names
it in a `uhc-base-path` meta element, and requests, pictures and artwork go below it.

What is taken on trust: string equality, `String::push` and `str::to_lowercase` of
the standard library (`src/text.rs`), `urlencoding` (`src/url.rs`), and the two
readers of `serde_json::Value` (`src/pages/settings.rs`).
