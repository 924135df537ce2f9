//! Two-party token escrow: the initialization path.
//!
//! The library decodes instructions, (de)serializes the escrow record to its
//! fixed 105-byte layout, and validates the accounts of an initialization
//! before it writes the record and builds the token program's
//! ownership-transfer instruction.

pub mod error;
pub mod instruction;
pub mod pubkey;
pub mod state;
pub mod token;
pub mod processor;
