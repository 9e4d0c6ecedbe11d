//! Provisioning of local user accounts from externally authenticated
//! identities.
//!
//! An identity provider hands this library a validated account/tenant/display
//! name triple.  The library decides, purely and deterministically, how that
//! identity maps onto the local user store: which canonical email it owns,
//! whether the store record is created or refreshed, which attributes are
//! synthesized and which are carried forward.  The store itself, the password
//! hashing primitive, the random token generator and the process configuration
//! are collaborators outside this crate: callers perform the lookup and the
//! writes, and pass the values those collaborators produce.

pub mod laws;
pub mod model;
pub mod provision;
