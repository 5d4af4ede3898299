//! Encrypted local document storage: password-based key derivation,
//! authenticated encryption, a self-describing ciphertext envelope and the
//! rules of the document store built on them.
pub mod ciphertext;
pub mod xchacha20poly1305;
pub mod argon2_hasher;
pub mod store;
pub mod mailbox;
