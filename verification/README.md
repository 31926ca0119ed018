# TontooWebKit

Web content framework for TontooOS, following Apple's WebKit design: a web
view, a configuration (start URL, engine settings, user scripts, message
handlers, website data store), and navigation, view and download
delegates. The rendering engine is WebKitGTK.

## Layout

- `src/` is the library. It holds the framework's decisions as functions
  with proved contracts:
  - `settings`: `WebSettings`, its builder and defaults (with the law that
    the last setter call for a field wins), and what applying it writes to
    the engine (`engine_settings`, `engine_cache_model`).
  - `web_view`: the URL scheme allowlist (`validate_url`,
    `check_start_url`), policy decision classification and inspector
    toggling.
  - `config`: the web view configuration and its builders, generic over
    the message handler type.
  - `script`: user scripts.
  - `navigation`: navigation events, the navigation delegate trait, and
    which delegate callbacks an engine load event reaches.
  - `delegate`: dialog kinds, permission kinds and the fail-closed default
    permission decision.
  - `data_store`: website data selections, their engine bit mask, clear
    requests and time spans.
  - `cookie`: cookie values and accept policies.
  - `lang`: language selection from the locale, turning a language file's
    JSON text into its string table (`load_table`, through `serde_json`),
    and string table lookup.
  - `geolocation`: the location provider's state machine.
  - `ffi`: how a configuration received through the C interface becomes a
    web view configuration, and the C result codes.
  - `error`: the error type and its messages.
- `tests/` exercises the library on concrete values.
- `app/` drives the engine: the `WebView` widget and its signal wiring,
  cookie and data store managers, JSON conversion of JavaScript values,
  the environment and the bundled language files, the CoreLocation worker, UIKit embedding
  and the C interface.
