//! Event records of the unified audit stream.
//!
//! Every mutating operation publishes one record stamped with a schema
//! version and a strictly increasing nonce drawn from a single global
//! counter, so external indexers can order events and detect gaps or
//! duplicates.  Decoding a record with an unrecognized schema version fails
//! loudly instead of silently dropping fields.

use vstd::prelude::*;

use crate::errors::ContractError;

verus! {

/// Schema version stamped on every event this crate emits.
pub const EVENT_VERSION_V1: u32 = 1;

/// A confession was anchored by one of the domain modules.
#[derive(Clone, Debug, PartialEq)]
pub struct ConfessionEvent {
    pub event_version: u32,
    pub nonce: u64,
    pub confession_id: u64,
    pub author: u64,
    pub content_hash: String,
    pub timestamp: u64,
}

/// A user reacted to a confession.
#[derive(Clone, Debug, PartialEq)]
pub struct ReactionEvent {
    pub event_version: u32,
    pub nonce: u64,
    pub confession_id: u64,
    pub reactor: u64,
    pub reaction_type: String,
    pub timestamp: u64,
}

/// A user reported a confession.
#[derive(Clone, Debug, PartialEq)]
pub struct ReportEvent {
    pub event_version: u32,
    pub nonce: u64,
    pub confession_id: u64,
    pub reporter: u64,
    pub reason: String,
    pub timestamp: u64,
}

/// A role was granted to or removed from a user by a domain module.
#[derive(Clone, Debug, PartialEq)]
pub struct RoleEvent {
    pub event_version: u32,
    pub nonce: u64,
    pub user: u64,
    pub role: String,
    pub granted: bool,
    pub timestamp: u64,
}

/// One record of the audit stream.  Governance and domain events share the
/// one nonce space, so the variants below are ordered by their nonces alone.
#[derive(Clone, Debug, PartialEq)]
pub enum Event {
    /// Domain event: confession anchored.
    Confession(ConfessionEvent),
    /// Domain event: reaction recorded.
    Reaction(ReactionEvent),
    /// Domain event: report recorded.
    Report(ReportEvent),
    /// Domain event: role changed.
    Role(RoleEvent),
    /// An account was added to the admin set.
    Grant { event_version: u32, nonce: u64, caller: u64, target: u64, timestamp: u64 },
    /// An account was removed from the admin set.
    Revoke { event_version: u32, nonce: u64, caller: u64, target: u64, timestamp: u64 },
    /// An ownership transfer was proposed.
    Proposed { event_version: u32, nonce: u64, old_owner: u64, new_owner: u64, timestamp: u64 },
    /// A pending ownership transfer was accepted; the owner changed.
    Accepted { event_version: u32, nonce: u64, old_owner: u64, new_owner: u64, timestamp: u64 },
    /// Any pending ownership transfer was discarded.
    Cancelled { event_version: u32, nonce: u64, owner: u64, timestamp: u64 },
    /// A mutation was refused because it would have broken the
    /// minimum-admin invariant.  This is the one record emitted on a failure
    /// path: governance violations are auditable, not silent.
    InvariantViolation {
        event_version: u32,
        nonce: u64,
        operation: String,
        reason: String,
        attempted_by: u64,
        timestamp: u64,
    },
    /// The rate-limit configuration changed; carries both the old and the
    /// new parameters.
    ConfigUpdate {
        event_version: u32,
        nonce: u64,
        old_limits: u32,
        old_threshold: u32,
        old_window: u32,
        new_limits: u32,
        new_threshold: u32,
        new_window: u32,
        timestamp: u64,
    },
    /// The owner changed by a direct transfer.
    OwnershipTransfer { event_version: u32, nonce: u64, old_owner: u64, new_owner: u64, timestamp: u64 },
}

impl Event {
    /// The sequence number stamped on this record.
    pub open spec fn nonce_spec(self) -> u64 {
        match self {
            Event::Confession(e) => e.nonce,
            Event::Reaction(e) => e.nonce,
            Event::Report(e) => e.nonce,
            Event::Role(e) => e.nonce,
            Event::Grant { nonce, .. } => nonce,
            Event::Revoke { nonce, .. } => nonce,
            Event::Proposed { nonce, .. } => nonce,
            Event::Accepted { nonce, .. } => nonce,
            Event::Cancelled { nonce, .. } => nonce,
            Event::InvariantViolation { nonce, .. } => nonce,
            Event::ConfigUpdate { nonce, .. } => nonce,
            Event::OwnershipTransfer { nonce, .. } => nonce,
        }
    }

    /// The schema version stamped on this record.
    pub open spec fn version_spec(self) -> u32 {
        match self {
            Event::Confession(e) => e.event_version,
            Event::Reaction(e) => e.event_version,
            Event::Report(e) => e.event_version,
            Event::Role(e) => e.event_version,
            Event::Grant { event_version, .. } => event_version,
            Event::Revoke { event_version, .. } => event_version,
            Event::Proposed { event_version, .. } => event_version,
            Event::Accepted { event_version, .. } => event_version,
            Event::Cancelled { event_version, .. } => event_version,
            Event::InvariantViolation { event_version, .. } => event_version,
            Event::ConfigUpdate { event_version, .. } => event_version,
            Event::OwnershipTransfer { event_version, .. } => event_version,
        }
    }

    /// The schema version stamped on this record.
    pub fn version(&self) -> (r: u32)
        ensures
            r == self.version_spec(),
    {
        match self {
            Event::Confession(e) => e.event_version,
            Event::Reaction(e) => e.event_version,
            Event::Report(e) => e.event_version,
            Event::Role(e) => e.event_version,
            Event::Grant { event_version, .. } => *event_version,
            Event::Revoke { event_version, .. } => *event_version,
            Event::Proposed { event_version, .. } => *event_version,
            Event::Accepted { event_version, .. } => *event_version,
            Event::Cancelled { event_version, .. } => *event_version,
            Event::InvariantViolation { event_version, .. } => *event_version,
            Event::ConfigUpdate { event_version, .. } => *event_version,
            Event::OwnershipTransfer { event_version, .. } => *event_version,
        }
    }

    /// The sequence number stamped on this record.
    pub fn nonce(&self) -> (r: u64)
        ensures
            r == self.nonce_spec(),
    {
        match self {
            Event::Confession(e) => e.nonce,
            Event::Reaction(e) => e.nonce,
            Event::Report(e) => e.nonce,
            Event::Role(e) => e.nonce,
            Event::Grant { nonce, .. } => *nonce,
            Event::Revoke { nonce, .. } => *nonce,
            Event::Proposed { nonce, .. } => *nonce,
            Event::Accepted { nonce, .. } => *nonce,
            Event::Cancelled { nonce, .. } => *nonce,
            Event::InvariantViolation { nonce, .. } => *nonce,
            Event::ConfigUpdate { nonce, .. } => *nonce,
            Event::OwnershipTransfer { nonce, .. } => *nonce,
        }
    }
}

/// Whether a decoder of the first schema version accepts this version tag:
/// forward compatibility is additive-fields-only, so only the exact version
/// is accepted and everything else aborts the decode.
pub open spec fn decodable_v1(event_version: u32) -> bool {
    event_version == EVENT_VERSION_V1
}

/// Checks that a confession event can be decoded by a first-version decoder.
pub fn decode_confession_event(event: &ConfessionEvent) -> (r: Result<(), ContractError>)
    ensures
        r is Ok <==> decodable_v1(event.event_version),
        r is Err ==> r == Err::<(), ContractError>(ContractError::InvalidInput),
{
    if event.event_version == EVENT_VERSION_V1 {
        Ok(())
    } else {
        Err(ContractError::InvalidInput)
    }
}

/// Checks that a reaction event can be decoded by a first-version decoder.
pub fn decode_reaction_event(event: &ReactionEvent) -> (r: Result<(), ContractError>)
    ensures
        r is Ok <==> decodable_v1(event.event_version),
        r is Err ==> r == Err::<(), ContractError>(ContractError::InvalidInput),
{
    if event.event_version == EVENT_VERSION_V1 {
        Ok(())
    } else {
        Err(ContractError::InvalidInput)
    }
}

/// Checks that a report event can be decoded by a first-version decoder.
pub fn decode_report_event(event: &ReportEvent) -> (r: Result<(), ContractError>)
    ensures
        r is Ok <==> decodable_v1(event.event_version),
        r is Err ==> r == Err::<(), ContractError>(ContractError::InvalidInput),
{
    if event.event_version == EVENT_VERSION_V1 {
        Ok(())
    } else {
        Err(ContractError::InvalidInput)
    }
}

/// Checks that a role event can be decoded by a first-version decoder.
pub fn decode_role_event(event: &RoleEvent) -> (r: Result<(), ContractError>)
    ensures
        r is Ok <==> decodable_v1(event.event_version),
        r is Err ==> r == Err::<(), ContractError>(ContractError::InvalidInput),
{
    if event.event_version == EVENT_VERSION_V1 {
        Ok(())
    } else {
        Err(ContractError::InvalidInput)
    }
}

} // verus!
