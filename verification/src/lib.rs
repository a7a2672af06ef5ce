//! An escrow between two parties over two token mints.
//!
//! A maker deposits `amount` tokens of mint A into a vault owned by an escrow
//! account and asks for `receive` tokens of mint B in return, until an expiry
//! time. A taker may fulfil the offer before it expires; the maker may take
//! the deposit back at any time.
//!
//! The library holds the rules of the three instructions: the checks they
//! make, the escrow state they record and the token movements they order.
//! The token movements themselves are carried out by the token program.
pub mod address;
pub mod clock;
pub mod cpi;
pub mod error;
pub mod instructions;
pub mod laws;
pub mod state;

pub use error::{EscrowError, InstructionError};
pub use instructions::make::{make, make_at, make_with_clock, Make, MakeBumps};
pub use instructions::refund::{refund, refund_checked, Refund};
pub use instructions::take::{
    take, take_at, take_checked, take_checked_with_clock, take_with_clock, Take, TakeOutcome,
};
pub use state::{Address, Escrow, ESCROW_SEED};
