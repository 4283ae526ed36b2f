# linnote

The verified core of a desktop client for OneNote on the web.

- `src/config.rs` — the navigation policy: which URLs the webview may load
  (internal browser schemes; Microsoft / OneNote domains and their
  subdomains; federated single-sign-on endpoints), with the laws it obeys.
- `src/navigation.rs` — navigation requests: the script that opens an allowed
  URL, or the reason it is refused.
- `src/settings.rs` — how stored settings choose the start page, the start-up
  visibility and the close-to-tray behaviour.
- `src/weburl.rs` — the scheme, host and path of a URL, parsed by the `url`
  crate.
- `src/text.rs` — character-level prefix, suffix and substring checks.
- `app/` — the Tauri program around the library (windows, webview, store,
  shortcuts, zoom).
