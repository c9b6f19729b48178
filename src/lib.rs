//! An in-memory ledger core: account balances, per-account nonces, the block
//! number and the block author, each held by an independent module that is
//! generic over the types it stores, and composed into one runtime.

pub mod authorship;
pub mod balances;
pub mod runtime;
pub mod system;
pub mod types;
