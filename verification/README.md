# ascom_alpaca

Protocol logic of ASCOM Alpaca (astronomy devices over HTTP), written in Verus with
machine-checked contracts.

`src/` is the verified library:

- `errors` — error codes and errors, their wire form and printed form.
- `image_array`, `image_bytes`, `image_json` — images, the binary `ImageBytes` transport
  format and the nested-array JSON form, each with a proved read-back-what-was-written law.
- `enums`, `responses` — device enumerations and their wire numbers.
- `devices`, `management` — device categories, the device registry, configured devices.
- `device_state`, `device_props` — timestamped device state, switch state names, gain
  modes, filter wheel positions, boolean parameters.
- `discovery` — interface grouping, discovery targets, and the discovery loop's decisions.
- `http` — `Accept` and `Content-Type` decisions, request routing, field splitting.
- `text` — character-level helpers.

`app/` holds what the library leaves to ordinary Rust: JSON and `ndarray` conversions,
network interfaces, timestamps, and the async device traits.
