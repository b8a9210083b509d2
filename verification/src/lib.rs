//! Wire format and instruction builders of a collateralized-lending program.
//!
//! A request to the program is a byte string: one tag byte that selects the
//! operation, then the operation's fields at fixed positions, integers in
//! little-endian order.
//!
//! - [`wire`] states the format as mathematical functions on byte sequences,
//!   and proves that decoding and encoding invert each other.
//! - [`codec`] reads and writes the single fields.
//! - [`instruction`] holds the typed operations, their decoder and encoder, and
//!   the builders that pair a packed operation with the accounts it needs.
//! - [`message`] holds what a builder returns.
//! - [`pubkey`] holds account identities and what is taken on trust about them.
//! - [`error`] lists the failures.
pub mod codec;
pub mod error;
pub mod instruction;
pub mod message;
pub mod pubkey;
pub mod wire;
