# oxide_auth registrar

The client registrar of an OAuth 2 authorization server, verified with Verus.

- `src/registrar.rs`: clients (public or confidential), passphrase storage, the `Registrar`
  trait and the in-memory `ClientMap`, with contracts over a model of each type.
- `src/laws.rs`: properties that relate the operations (registration and lookup, binding of
  redirect urls, authentication of the passphrase a client was created with).
- `src/digest.rs`: SHA-256 and constant-time comparison from `ring`, behind trusted wrappers.
- `src/redirect.rs`: redirect urls parsed by the `url` crate, behind a trusted wrapper.
- `src/scope.rs`: the scope granted to a client.
