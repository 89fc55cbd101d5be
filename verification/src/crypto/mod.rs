pub mod sha256;
pub mod sha3_256;
pub mod sign_ed25519;
