//! A custodial multi-asset ledger.
//!
//! Users deposit a base asset into a pooled custody account, hold
//! individually tracked balances, convert between the base asset and a
//! wrapped representation held in custody, and exchange assets either at an
//! internal fixed rate or at a rate realized by an external exchange venue.
//! An administrator may act on a user's behalf.
//!
//! The host execution environment (account storage and addressing, signature
//! verification, custody transfers, the venue itself, the clock) is outside
//! this crate: every operation here is a pure transition on the ledger
//! entities, taking externally observed values (custody balances, the current
//! time) as plain arguments. Each operation either returns `Ok` having
//! applied its full effect, or returns a typed error having changed nothing.

pub mod auth;
pub mod deposits;
pub mod errors;
pub mod laws;
pub mod settlement;
pub mod state;
pub mod wrapping;
