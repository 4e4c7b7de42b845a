//! A crowdfunding campaign as a verified state machine.
//!
//! The library models one campaign per instance: it is initialized once
//! with an owner, a funding asset, a goal and a deadline, accepts
//! contributions until the deadline, and releases the pooled amount to
//! the owner exactly once, after the deadline and only if the goal was
//! met.  The host environment (durable storage, the authorization
//! oracle, the value-transfer service, the clock and the event sink)
//! stays outside: each operation takes the collaborators' outcomes as
//! plain arguments, so the whole lifecycle is verified for every
//! behaviour of the host.

pub mod campaign;
pub mod errors;
pub mod laws;
pub mod ledger;
pub mod model;
