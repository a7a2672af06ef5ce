//! The three instructions of the escrow program.
pub mod make;
pub mod refund;
pub mod take;
