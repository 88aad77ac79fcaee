//! Authorization, governance, and auditable-event core of a ledger-resident
//! application.
//!
//! The crate models the persistent contract state as a plain value,
//! [`state::ContractState`]: account identifiers are `u64`, the chain clock is
//! an explicit `now` argument, and the published event stream is a vector of
//! [`events::Event`] records.  Every mutating operation authorizes its caller,
//! performs its transition, and appends an event stamped with the next value
//! of a single strictly increasing nonce; the well-formedness invariant ties
//! the nonce counter to the event log, so gap- and duplicate-freedom of the
//! emitted nonces is an invariant of the state, not a property re-checked per
//! operation.

pub mod authority;
pub mod checkpoint;
pub mod configurable;
pub mod errors;
pub mod events;
pub mod governance;
pub mod sequencer;
pub mod state;
