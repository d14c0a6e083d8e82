# openpanel_sdk

OpenPanel event tracking for Godot games, written in Verus.

- `src/` is the verified library: the tracker's state and settings
  (`tracker.rs`), the requests it builds and the answers it takes
  (`request.rs`), the ordered string map that carries properties and headers
  (`props.rs`), the user agent text (`agent.rs`), decimal text of amounts
  (`decimal.rs`), the `Analytics` singleton's decisions (`analytics.rs`), the
  `serde_json` call that reads device id answers (`json.rs`) and laws that span
  several operations (`laws.rs`).
- `app/` holds the Godot classes: the tracker node with its HTTP client and
  config file, the `Analytics` singleton and the editor plugin. Each request is
  built by the library, sent by the node, and its outcome handed back to the
  library.
- `tests/` runs the library on concrete values.
