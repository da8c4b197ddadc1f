//! Construction of ledger operations from application-level parameters.
//!
//! Textual account identifiers, asset descriptors and integer amounts go in;
//! a validated operation in the ledger's canonical structure comes out, or the
//! first violated rule. Nothing here signs, serialises or talks to a network.

pub mod address;
pub mod amount;
pub mod asset;
pub mod op_list;
pub mod operation;
pub mod xdr;
