//! AES and SHA-256 helpers for Meshtastic packet encryption.
pub mod aes;
pub mod sha;
