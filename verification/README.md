# pointiv-extension-sdk

The SDK for Pointiv WASM extensions, with its logic verified by Verus.

- `src/` is the verified library: the `Input`/`Output` types, log lines,
  storage/clipboard/LLM/HTTP reply handling, the Google Calendar event
  payload with its calendar and clock arithmetic, the Gmail payload, the
  reading of the backend's JSON replies, and the tile builders.
- `app/` is the extension-facing crate: the Extism host functions, the
  serde forms of the types, and the functions with the SDK's original
  signatures, which call the host and hand its replies to `src/`.
- `tests/` runs the library on concrete values, against `serde_json` and
  `std` where the library states their behaviour.
