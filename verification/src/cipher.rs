//! Ciphers and encodings: standard base64 and AES-256-GCM.
pub mod aes_gcm_repository;
pub mod base64_repository;
