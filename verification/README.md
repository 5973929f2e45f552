# a2a

Types and rules of the Agent-to-Agent (A2A) protocol, with their contracts
proved by Verus.

## Layout

- `src/` is the verified library: agent cards and their security model,
  tasks, messages, parts and their wire fields, artifacts, stream events,
  JSON-RPC envelopes and error codes, the operation parameter types, the
  request context and its extensions, the routing of JSON-RPC methods,
  JWS verification of agent card signatures, and the canonical JSON form
  that those signatures cover. Calls into `base64`, `p256`, `rsa`, `sha2`,
  `serde_json` and `time` go through small trusted wrappers whose contracts
  are stated next to them.
- `app/` holds what sits around the library: the serde forms of the types,
  the asynchronous dispatcher and handler trait, the SSE event stream, the
  task store trait, and the conversion of cards into the bytes their
  signatures cover.
- `tests/` exercises the library on concrete values.
