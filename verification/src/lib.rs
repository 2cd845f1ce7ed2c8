//! Verified core of a secure software-update system: semantic versions with
//! anti-downgrade ordering, SHA3/BLAKE3 digests, hybrid (Dilithium3 + Ed25519)
//! signatures, publisher key stores, manifest verification, rate limiting and
//! the decision rules of the update server and clients.

pub mod text;
pub mod hex;
pub mod version;
pub mod base64_text;
pub mod backend;
pub mod crypto;
pub mod core_types;
pub mod hashing;
pub mod classical;
pub mod pq;
pub mod hybrid;
pub mod key_management;
pub mod rate_limit;
pub mod rollback;
pub mod server_registry;
pub mod models;
pub mod database;
pub mod package_verifier;
pub mod manifest_verifier;
pub mod paths;
pub mod update_server;
pub mod server_auth;
pub mod publisher_auth;
pub mod server_api;
pub mod hardening;
pub mod update_client;
pub mod client_updater;
pub mod publishing;
pub mod publisher_session;
pub mod client_state;
