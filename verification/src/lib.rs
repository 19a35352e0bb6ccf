//! Construction, signing and wire encoding of extrinsics.
//!
//! The crate builds the signed extensions of a transaction, derives the byte
//! sequence that is signed, applies the digest rule for long payloads, and
//! assembles the length-prefixed envelope that a node accepts.

pub mod call;
pub mod codec;
pub mod endpoints;
pub mod extrinsic;
pub mod hexfmt;
pub mod keyring;
pub mod payload;
pub mod signing;
pub mod tx_manager;
pub mod wire;

pub use crate::tx_manager::TxManager;
pub use endpoints::get_end_points;
pub use payload::PotVote;
pub use signing::{Signature, SignatureXcm};
