//! AES-128 block cipher with an Output-Feedback (OFB) stream driver.
//!
//! The crate implements the standard 10-round Rijndael encryption transform
//! for 128-bit keys, the word-oriented key schedule that expands a 16-byte
//! key into eleven round keys, and an OFB mode driver that turns the block
//! cipher into a stream cipher.  In OFB mode the same procedure both
//! encrypts and decrypts: a feedback register seeded with the IV is
//! repeatedly encrypted to produce keystream blocks, which are XORed
//! against the data.

pub mod tables;
pub mod galois;
pub mod state;
pub mod key;
pub mod block;
pub mod ofb;
pub mod props;
mod hex;

pub use ofb::{ofb_decrypt, ofb_encrypt, CipherError};
