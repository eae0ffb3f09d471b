//! An escrow engine for capped, price-settled option positions.
//!
//! A user locks a premium to open a position against an external asset
//! price; a shared collateral pool reserves the worst-case payout for the
//! life of the position; at settlement the position resolves to a payout
//! bounded by a cap, and any unused reservation returns to the pool.
//!
//! The engine keeps the pool solvent at all times: the running total of
//! locked collateral equals the sum of the reservations of the open bets
//! and never exceeds the pool's balance.

pub mod bet;
pub mod engine;
pub mod errors;
pub mod laws;
pub mod pool;
pub mod registry;
