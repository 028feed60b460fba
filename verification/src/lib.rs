//! A fixed-price, single-use atomic-swap escrow protocol.
//!
//! The library is split in three layers, consumed in this order:
//! an instruction codec that parses a raw byte payload into a typed
//! operation, a record codec that maps the persisted swap-pair record
//! to and from its fixed 146-byte layout, and a processor that checks
//! every protocol invariant before committing a state change.
//!
//! The host runtime (account loading, signature verification, the
//! token-transfer service, rent accounting) stays outside: the
//! processor works on plain account values and reports the transfer
//! it needs as data, so that every decision in the protocol is
//! verified here.

pub mod error;
pub mod pubkey;
pub mod state;
pub mod instruction;
pub mod processor;
