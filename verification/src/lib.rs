//! A compact, fixed-capacity account container for test fixtures.
//!
//! The central type is [`small_account::SmallAccount`]: an account whose
//! payload is stored inline in a fixed-size buffer rather than on the heap.
//! Construction validates the payload length; equality and hashing are
//! defined over the logical payload prefix only, never over the padding
//! bytes that sit beyond it in the physical buffer.

pub mod fnv;
pub mod pubkey;
pub mod small_account;
