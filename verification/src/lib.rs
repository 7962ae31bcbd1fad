//! SHA-1 digest computation, verified.
//!
//! The pipeline is: byte input -> padded bit stream (`pre_process_message`)
//! -> five 32-bit state words (`compute_sha`) -> lowercase hex string
//! (`format_digest`). Every stage carries a contract that pins its result
//! down to a mathematical model of the algorithm.

pub mod hex;
pub mod pad;
pub mod sha;
pub mod words;

pub use hex::format_digest;
pub use pad::pre_process_message;
pub use sha::compute_sha;
pub use words::u8s_to_u32;

