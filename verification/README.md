# client

The client side of an end-to-end encrypted group chat, verified with Verus.

- `src/message.rs` — payloads and messages as they travel on the wire, the
  size checks on them, and the bytes a signature covers.
- `src/crypto.rs` — AES-256-GCM encryption, Ed25519 signatures, X25519 key
  agreement and key generation, with their laws: decryption undoes
  encryption, a key pair's own signature verifies, and both sides of an
  X25519 exchange agree on the secret.
- `src/channel.rs` — channel membership: the handshake that hands a client
  the channel key, admission, leaving and key rotation.
- `src/user.rs` — users and the rule on their names.
- `src/primitives.rs` — the calls into `aes-gcm`, `ed25519-dalek` and
  `x25519-dalek`, whose contracts are assumed rather than proved.
- `app/lib.rs` — serde forms of payloads and messages for the wire.
