//! Stable error taxonomy shared by every component.
//!
//! Each error carries a stable numeric code and a static human-readable
//! message so that clients can map failures without parsing text.

use vstd::prelude::*;

verus! {

/// Every way an operation of this crate can fail.  All failures are terminal
/// for the current transaction: the caller observes an unchanged state,
/// except that a rejected revocation of the last admin still appends an
/// invariant-violation event to the audit trail.
#[derive(Clone, Copy, Debug, PartialEq, Eq, Structural)]
pub enum ContractError {
    /// Caller lacks the required role.
    Unauthorized,
    /// Referenced entity is absent.
    NotFound,
    /// Input value out of the allowed bounds.
    InvalidInput,
    /// Arithmetic bound exceeded.
    Overflow,
    /// Rate-limited mutation attempted before the cooldown elapsed.
    CooldownActive,
    /// One-time initialization attempted twice.
    AlreadyInitialized,
    /// The owner is never a member of the admin set, so demoting it is
    /// rejected explicitly rather than silently ignored.
    CannotDemoteOwner,
    /// Minimum-admin breach: revoking the last admin.
    InvariantViolation,
    /// `accept` called while no transfer is pending.
    NoPendingTransfer,
    /// `accept` called before the timelock elapsed.
    TimelockNotElapsed,
    /// Duplicate confession submission.
    ConfessionExists,
    /// Empty confession content.
    ConfessionEmpty,
    /// Confession content exceeds the maximum length.
    ConfessionTooLong,
    /// The user already reacted.
    ReactionExists,
    /// Reaction type not recognized.
    InvalidReactionType,
    /// The user already reported.
    ReportExists,
    /// Report reason not allowed.
    InvalidReportReason,
}

impl ContractError {
    /// The stable numeric code of this error.
    pub open spec fn code_spec(self) -> u32 {
        match self {
            ContractError::Unauthorized => 1000,
            ContractError::NotFound => 1001,
            ContractError::InvalidInput => 1002,
            ContractError::Overflow => 1003,
            ContractError::CooldownActive => 1004,
            ContractError::AlreadyInitialized => 1005,
            ContractError::CannotDemoteOwner => 1006,
            ContractError::InvariantViolation => 1007,
            ContractError::NoPendingTransfer => 1008,
            ContractError::TimelockNotElapsed => 1009,
            ContractError::ConfessionExists => 2000,
            ContractError::ConfessionEmpty => 2001,
            ContractError::ConfessionTooLong => 2002,
            ContractError::ReactionExists => 3000,
            ContractError::InvalidReactionType => 3001,
            ContractError::ReportExists => 4000,
            ContractError::InvalidReportReason => 4001,
        }
    }

    /// Stable numeric code for client-side mapping.
    pub fn code(&self) -> (r: u32)
        ensures
            r == self.code_spec(),
    {
        match self {
            ContractError::Unauthorized => 1000,
            ContractError::NotFound => 1001,
            ContractError::InvalidInput => 1002,
            ContractError::Overflow => 1003,
            ContractError::CooldownActive => 1004,
            ContractError::AlreadyInitialized => 1005,
            ContractError::CannotDemoteOwner => 1006,
            ContractError::InvariantViolation => 1007,
            ContractError::NoPendingTransfer => 1008,
            ContractError::TimelockNotElapsed => 1009,
            ContractError::ConfessionExists => 2000,
            ContractError::ConfessionEmpty => 2001,
            ContractError::ConfessionTooLong => 2002,
            ContractError::ReactionExists => 3000,
            ContractError::InvalidReactionType => 3001,
            ContractError::ReportExists => 4000,
            ContractError::InvalidReportReason => 4001,
        }
    }

    /// The characters of the static human-readable message of this error.
    pub open spec fn message_spec(self) -> Seq<char> {
        match self {
            ContractError::Unauthorized => "caller not authorized"@,
            ContractError::NotFound => "entity not found"@,
            ContractError::InvalidInput => "invalid input"@,
            ContractError::Overflow => "arithmetic overflow"@,
            ContractError::CooldownActive => "cooldown period not elapsed"@,
            ContractError::AlreadyInitialized => "already initialized"@,
            ContractError::CannotDemoteOwner => "owner cannot be demoted"@,
            ContractError::InvariantViolation => "minimum-admin invariant violated"@,
            ContractError::NoPendingTransfer => "no pending transfer"@,
            ContractError::TimelockNotElapsed => "timelock not elapsed"@,
            ContractError::ConfessionExists => "confession already exists"@,
            ContractError::ConfessionEmpty => "confession content empty"@,
            ContractError::ConfessionTooLong => "confession content too long"@,
            ContractError::ReactionExists => "reaction already exists"@,
            ContractError::InvalidReactionType => "reaction type invalid"@,
            ContractError::ReportExists => "report already exists"@,
            ContractError::InvalidReportReason => "report reason invalid"@,
        }
    }

    /// Static human-readable message for client-side display.
    pub fn message(&self) -> (r: &'static str)
        ensures
            r@ == self.message_spec(),
    {
        match self {
            ContractError::Unauthorized => "caller not authorized",
            ContractError::NotFound => "entity not found",
            ContractError::InvalidInput => "invalid input",
            ContractError::Overflow => "arithmetic overflow",
            ContractError::CooldownActive => "cooldown period not elapsed",
            ContractError::AlreadyInitialized => "already initialized",
            ContractError::CannotDemoteOwner => "owner cannot be demoted",
            ContractError::InvariantViolation => "minimum-admin invariant violated",
            ContractError::NoPendingTransfer => "no pending transfer",
            ContractError::TimelockNotElapsed => "timelock not elapsed",
            ContractError::ConfessionExists => "confession already exists",
            ContractError::ConfessionEmpty => "confession content empty",
            ContractError::ConfessionTooLong => "confession content too long",
            ContractError::ReactionExists => "reaction already exists",
            ContractError::InvalidReactionType => "reaction type invalid",
            ContractError::ReportExists => "report already exists",
            ContractError::InvalidReportReason => "report reason invalid",
        }
    }
}

} // verus!
