//! An escrow marketplace for single-unit assets ("vouchers").
//!
//! Owners list an asset at a fixed price or buyers bid on it. The asset or the
//! bid's funds sit in custody accounts whose authority is a program-derived
//! address, and each instruction either settles or unwinds a trade atomically:
//! on any failure it leaves every account it was handed untouched.

pub mod address;
pub mod constants;
pub mod custody;
pub mod derivation;
pub mod errors;
pub mod instructions;
pub mod settlement;
pub mod state;
