//! A single owned record that moves between a base ledger and a delegated
//! rollup context, mutated by its owner, by permissionless crankers through
//! derived-address authorization, and by an oracle callback.

pub mod address;
pub mod state;
pub mod randomness;
pub mod instructions;
pub mod laws;
pub mod router;
