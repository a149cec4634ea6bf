//! A ledger-resident lottery: an authority creates numbered lotteries, buyers
//! pay a fixed ticket price into a pooled custody balance, the authority picks
//! a pseudo-random winner, and the winner claims the whole pool exactly once.
//!
//! Every operation is a single atomically-applied unit: it either takes full
//! effect or is rejected with a tagged error and zero state change. The host
//! ledger is assumed to serialise operations that touch the same record.

pub mod addr;
pub mod errors;
pub mod lottery;
pub mod registry;
pub mod settlement;
pub mod winner;
