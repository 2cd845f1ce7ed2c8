# secure_update

A verified core for a secure software-update system: publishers sign
packages and manifests with hybrid post-quantum signatures (Dilithium3 +
Ed25519 over SHA3-256), a server accepts only genuine publications, and
clients install only genuine, newer packages.

- `src/` is the library, written in Verus; every function there carries a
  contract that Verus proves. The calls into the cryptographic and
  encoding crates (sha3, blake3, base64, ed25519-dalek,
  pqcrypto-dilithium, rand, chrono, uuid) are gathered in
  `src/backend.rs`, each with the contract it is trusted to meet.
- `tests/` exercises the library with the real crates linked.
- `app/` is the publisher command-line tool: files, HTTP and JSON around
  the library.

Modules by role:

| Role | Modules |
|---|---|
| Text, paths, encodings | `text`, `paths`, `hex`, `base64_text`, `version` |
| Cryptography | `backend`, `crypto`, `core_types`, `hashing`, `classical`, `pq`, `hybrid`, `key_management` |
| Package server | `server_api`, `server_auth`, `rate_limit`, `database`, `models` |
| Manifest server | `update_server` |
| Clients | `package_verifier`, `manifest_verifier`, `client_updater`, `client_state`, `hardening`, `update_client`, `rollback`, `server_registry` |
| Publisher tools | `publishing`, `publisher_auth`, `publisher_session` |
