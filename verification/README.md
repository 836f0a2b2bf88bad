# lidp_unified

The verified core of a local OAuth2 identity provider and of its file storage service.

- `src/` is the library, checked by Verus: OAuth2 authorization-request validation,
  scopes, discovery metadata, JWT framing and signing (ES256K through `k256`, base64
  through `base64`), permission matching, key namespaces, the bootstrap baseline as a
  state machine, storage path resolution and capability checks, the peer registry of
  the storage runtime, and the bookkeeping of the streaming fetch bridge.
- `tests/` runs the library on concrete values.
- `app/` is the unverified shell: asynchronous file access, the runtime's event
  channel, JSON for tokens and wire messages, the upload and response channels of the
  fetch bridge, and the loop that performs the bootstrap's repository calls.

Proof functions named `law_*` state the properties that hold across operations.
