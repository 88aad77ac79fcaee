//! The timelocked ownership-handover state machine.
//!
//! `propose` records (or overwrites — last proposal wins) the at-most-one
//! pending transfer; `cancel` discards it; `accept` is self-authorized by
//! the proposed owner and completes the handover once the timelock has
//! elapsed.  The timelock in force is read fresh at accept time, so a
//! reconfiguration between propose and accept applies retroactively.  The
//! admin set is untouched by a completed transfer.

use vstd::prelude::*;

use crate::errors::ContractError;
use crate::events::{Event, EVENT_VERSION_V1};
use crate::state::{same_but_log, state_unchanged, ContractState, PendingTransfer};

verus! {

impl ContractState {
    /// Publishes the proposal record for a transfer of ownership from
    /// `current` to `proposed`, stamped with the next nonce, which it
    /// returns.
    pub fn proposed(&mut self, current: u64, proposed: u64, now: u64) -> (r: Result<
        u64,
        ContractError,
    >)
        requires
            old(self).wf(),
        ensures
            final(self).wf(),
            old(self).nonce_exhausted() ==> r == Err::<u64, ContractError>(ContractError::Overflow)
                && state_unchanged(*old(self), *final(self)),
            !old(self).nonce_exhausted() ==> {
                &&& r == Ok::<u64, ContractError>((old(self).nonce_spec() + 1) as u64)
                &&& same_but_log(*old(self), *final(self))
                &&& final(self).nonce_spec() as int == old(self).nonce_spec() + 1
                &&& final(self).log_spec() == old(self).log_spec().push(
                    Event::Proposed {
                        event_version: EVENT_VERSION_V1,
                        nonce: (old(self).nonce_spec() + 1) as u64,
                        old_owner: current,
                        new_owner: proposed,
                        timestamp: now,
                    },
                )
            },
    {
        if self.nonce >= u64::MAX - 1 {
            return Err(ContractError::Overflow);
        }
        let n = self.nonce + 1;
        self.push_event(
            Event::Proposed {
                event_version: EVENT_VERSION_V1,
                nonce: n,
                old_owner: current,
                new_owner: proposed,
                timestamp: now,
            },
        );
        Ok(n)
    }

    /// Publishes the acceptance record of a completed transfer, stamped
    /// with the next nonce, which it returns.
    pub fn accepted(&mut self, old_owner: u64, new_owner: u64, now: u64) -> (r: Result<
        u64,
        ContractError,
    >)
        requires
            old(self).wf(),
        ensures
            final(self).wf(),
            old(self).nonce_exhausted() ==> r == Err::<u64, ContractError>(ContractError::Overflow)
                && state_unchanged(*old(self), *final(self)),
            !old(self).nonce_exhausted() ==> {
                &&& r == Ok::<u64, ContractError>((old(self).nonce_spec() + 1) as u64)
                &&& same_but_log(*old(self), *final(self))
                &&& final(self).nonce_spec() as int == old(self).nonce_spec() + 1
                &&& final(self).log_spec() == old(self).log_spec().push(
                    Event::Accepted {
                        event_version: EVENT_VERSION_V1,
                        nonce: (old(self).nonce_spec() + 1) as u64,
                        old_owner,
                        new_owner,
                        timestamp: now,
                    },
                )
            },
    {
        if self.nonce >= u64::MAX - 1 {
            return Err(ContractError::Overflow);
        }
        let n = self.nonce + 1;
        self.push_event(
            Event::Accepted {
                event_version: EVENT_VERSION_V1,
                nonce: n,
                old_owner,
                new_owner,
                timestamp: now,
            },
        );
        Ok(n)
    }

    /// Publishes the cancellation record, stamped with the next nonce,
    /// which it returns.
    pub fn cancelled(&mut self, admin: u64, now: u64) -> (r: Result<u64, ContractError>)
        requires
            old(self).wf(),
        ensures
            final(self).wf(),
            old(self).nonce_exhausted() ==> r == Err::<u64, ContractError>(ContractError::Overflow)
                && state_unchanged(*old(self), *final(self)),
            !old(self).nonce_exhausted() ==> {
                &&& r == Ok::<u64, ContractError>((old(self).nonce_spec() + 1) as u64)
                &&& same_but_log(*old(self), *final(self))
                &&& final(self).nonce_spec() as int == old(self).nonce_spec() + 1
                &&& final(self).log_spec() == old(self).log_spec().push(
                    Event::Cancelled {
                        event_version: EVENT_VERSION_V1,
                        nonce: (old(self).nonce_spec() + 1) as u64,
                        owner: admin,
                        timestamp: now,
                    },
                )
            },
    {
        if self.nonce >= u64::MAX - 1 {
            return Err(ContractError::Overflow);
        }
        let n = self.nonce + 1;
        self.push_event(
            Event::Cancelled { event_version: EVENT_VERSION_V1, nonce: n, owner: admin, timestamp: now },
        );
        Ok(n)
    }

    /// Publishes the governance-invariant-violation record, stamped with
    /// the next nonce, which it returns: the audit trail of a refused
    /// mutation.
    pub fn invariant_violation(
        &mut self,
        operation: String,
        reason: String,
        attempted_by: u64,
        now: u64,
    ) -> (r: Result<u64, ContractError>)
        requires
            old(self).wf(),
        ensures
            final(self).wf(),
            old(self).nonce_exhausted() ==> r == Err::<u64, ContractError>(ContractError::Overflow)
                && state_unchanged(*old(self), *final(self)),
            !old(self).nonce_exhausted() ==> {
                &&& r == Ok::<u64, ContractError>((old(self).nonce_spec() + 1) as u64)
                &&& same_but_log(*old(self), *final(self))
                &&& final(self).nonce_spec() as int == old(self).nonce_spec() + 1
                &&& final(self).log_spec() == old(self).log_spec().push(
                    Event::InvariantViolation {
                        event_version: EVENT_VERSION_V1,
                        nonce: (old(self).nonce_spec() + 1) as u64,
                        operation,
                        reason,
                        attempted_by,
                        timestamp: now,
                    },
                )
            },
    {
        if self.nonce >= u64::MAX - 1 {
            return Err(ContractError::Overflow);
        }
        let n = self.nonce + 1;
        self.push_event(
            Event::InvariantViolation {
                event_version: EVENT_VERSION_V1,
                nonce: n,
                operation,
                reason,
                attempted_by,
                timestamp: now,
            },
        );
        Ok(n)
    }
}

/// Exactly how `propose` relates its outcome to its inputs.  Proposing the
/// current owner as the new owner is rejected: a self-transfer is a no-op
/// that would still consume a timelock cycle and pollute the audit trail.
pub open spec fn propose_post(
    pre: ContractState,
    post: ContractState,
    caller: u64,
    new_owner: u64,
    now: u64,
    r: Result<(), ContractError>,
) -> bool {
    if !pre.is_authorized_spec(caller) {
        r == Err::<(), ContractError>(ContractError::Unauthorized) && state_unchanged(pre, post)
    } else if pre.owner_spec() == Some(new_owner) {
        r == Err::<(), ContractError>(ContractError::InvalidInput) && state_unchanged(pre, post)
    } else if pre.nonce_exhausted() {
        r == Err::<(), ContractError>(ContractError::Overflow) && state_unchanged(pre, post)
    } else {
        &&& r == Ok::<(), ContractError>(())
        &&& post.pending_spec() == Some(
            PendingTransfer { proposed_owner: new_owner, proposed_at: now },
        )
        &&& post.owner_spec() == pre.owner_spec()
        &&& post.admins_spec() == pre.admins_spec()
        &&& post.timelock_spec() == pre.timelock_spec()
        &&& post.config_spec() == pre.config_spec()
        &&& post.nonce_spec() as int == pre.nonce_spec() + 1
        &&& post.log_spec() == pre.log_spec().push(
            Event::Proposed {
                event_version: EVENT_VERSION_V1,
                nonce: (pre.nonce_spec() + 1) as u64,
                old_owner: pre.owner_spec()->0,
                new_owner,
                timestamp: now,
            },
        )
    }
}

/// Exactly how `cancel` relates its outcome to its inputs.  Cancelling
/// when nothing is pending is a benign redundant call, not an error; a
/// cancellation record is stamped either way.
pub open spec fn cancel_post(
    pre: ContractState,
    post: ContractState,
    caller: u64,
    now: u64,
    r: Result<(), ContractError>,
) -> bool {
    if !pre.is_authorized_spec(caller) {
        r == Err::<(), ContractError>(ContractError::Unauthorized) && state_unchanged(pre, post)
    } else if pre.nonce_exhausted() {
        r == Err::<(), ContractError>(ContractError::Overflow) && state_unchanged(pre, post)
    } else {
        &&& r == Ok::<(), ContractError>(())
        &&& post.pending_spec() is None
        &&& post.owner_spec() == pre.owner_spec()
        &&& post.admins_spec() == pre.admins_spec()
        &&& post.timelock_spec() == pre.timelock_spec()
        &&& post.config_spec() == pre.config_spec()
        &&& post.nonce_spec() as int == pre.nonce_spec() + 1
        &&& post.log_spec() == pre.log_spec().push(
            Event::Cancelled {
                event_version: EVENT_VERSION_V1,
                nonce: (pre.nonce_spec() + 1) as u64,
                owner: pre.owner_spec()->0,
                timestamp: now,
            },
        )
    }
}

/// Exactly how `accept` relates its outcome to its inputs.  Only the
/// proposed owner itself may accept; the timelock in force is read at
/// accept time; accepting an account that is meanwhile the owner or an
/// admin is rejected, keeping the owner and the admin set disjoint.  On
/// success the owner changes and the admin set does not.
pub open spec fn accept_post(
    pre: ContractState,
    post: ContractState,
    caller: u64,
    now: u64,
    r: Result<(), ContractError>,
) -> bool {
    if pre.pending_spec() is None {
        r == Err::<(), ContractError>(ContractError::NoPendingTransfer) && state_unchanged(
            pre,
            post,
        )
    } else {
        let p = pre.pending_spec()->0;
        if caller != p.proposed_owner {
            r == Err::<(), ContractError>(ContractError::Unauthorized) && state_unchanged(
                pre,
                post,
            )
        } else if now < p.proposed_at + pre.effective_timelock_spec() {
            r == Err::<(), ContractError>(ContractError::TimelockNotElapsed) && state_unchanged(
                pre,
                post,
            )
        } else if pre.owner_spec() == Some(p.proposed_owner) || pre.is_admin_spec(
            p.proposed_owner,
        ) {
            r == Err::<(), ContractError>(ContractError::InvalidInput) && state_unchanged(
                pre,
                post,
            )
        } else if pre.nonce_exhausted() {
            r == Err::<(), ContractError>(ContractError::Overflow) && state_unchanged(pre, post)
        } else {
            &&& r == Ok::<(), ContractError>(())
            &&& post.owner_spec() == Some(p.proposed_owner)
            &&& post.pending_spec() is None
            &&& post.admins_spec() == pre.admins_spec()
            &&& post.timelock_spec() == pre.timelock_spec()
            &&& post.config_spec() == pre.config_spec()
            &&& post.nonce_spec() as int == pre.nonce_spec() + 1
            &&& post.log_spec() == pre.log_spec().push(
                Event::Accepted {
                    event_version: EVENT_VERSION_V1,
                    nonce: (pre.nonce_spec() + 1) as u64,
                    old_owner: pre.owner_spec()->0,
                    new_owner: p.proposed_owner,
                    timestamp: now,
                },
            )
        }
    }
}

/// Exactly how `set_timelock` relates its outcome to its inputs.
pub open spec fn set_timelock_post(
    pre: ContractState,
    post: ContractState,
    caller: u64,
    secs: u64,
    r: Result<(), ContractError>,
) -> bool {
    if !pre.is_authorized_spec(caller) {
        r == Err::<(), ContractError>(ContractError::Unauthorized) && state_unchanged(pre, post)
    } else {
        &&& r == Ok::<(), ContractError>(())
        &&& post.timelock_spec() == Some(secs)
        &&& post.owner_spec() == pre.owner_spec()
        &&& post.admins_spec() == pre.admins_spec()
        &&& post.pending_spec() == pre.pending_spec()
        &&& post.config_spec() == pre.config_spec()
        &&& post.nonce_spec() == pre.nonce_spec()
        &&& post.log_spec() == pre.log_spec()
    }
}

impl ContractState {
    /// Records a pending ownership transfer at chain time `now`,
    /// discarding any prior pending record, and stamps a proposal record.
    pub fn propose(&mut self, caller: u64, new_owner: u64, now: u64) -> (r: Result<
        (),
        ContractError,
    >)
        requires
            old(self).wf(),
        ensures
            final(self).wf(),
            propose_post(*old(self), *final(self), caller, new_owner, now, r),
    {
        if !self.is_authorized(caller) {
            return Err(ContractError::Unauthorized);
        }
        if self.is_owner(new_owner) {
            return Err(ContractError::InvalidInput);
        }
        if self.nonce >= u64::MAX - 1 {
            return Err(ContractError::Overflow);
        }
        let old_owner = match self.owner {
            Some(o) => o,
            None => {
                // Unreachable: an authorized caller implies an owner exists.
                return Err(ContractError::Unauthorized);
            },
        };
        self.pending = Some(PendingTransfer { proposed_owner: new_owner, proposed_at: now });
        let _ = self.proposed(old_owner, new_owner, now);
        Ok(())
    }

    /// Discards any pending ownership transfer and stamps a cancellation
    /// record; cancelling when nothing is pending is a benign no-op.
    pub fn cancel(&mut self, caller: u64, now: u64) -> (r: Result<(), ContractError>)
        requires
            old(self).wf(),
        ensures
            final(self).wf(),
            cancel_post(*old(self), *final(self), caller, now, r),
    {
        if !self.is_authorized(caller) {
            return Err(ContractError::Unauthorized);
        }
        if self.nonce >= u64::MAX - 1 {
            return Err(ContractError::Overflow);
        }
        let owner = match self.owner {
            Some(o) => o,
            None => {
                // Unreachable: an authorized caller implies an owner exists.
                return Err(ContractError::Unauthorized);
            },
        };
        self.pending = None;
        let _ = self.cancelled(owner, now);
        Ok(())
    }

    /// Completes the pending transfer: callable only by the proposed owner
    /// itself, only after the timelock in force has elapsed.  On success
    /// the owner changes, the pending record is destroyed, the admin set
    /// is untouched, and an acceptance record is stamped.
    pub fn accept(&mut self, caller: u64, now: u64) -> (r: Result<(), ContractError>)
        requires
            old(self).wf(),
        ensures
            final(self).wf(),
            accept_post(*old(self), *final(self), caller, now, r),
    {
        let p = match self.pending {
            Some(p) => p,
            None => {
                return Err(ContractError::NoPendingTransfer);
            },
        };
        if caller != p.proposed_owner {
            return Err(ContractError::Unauthorized);
        }
        let timelock = self.get_timelock();
        match p.proposed_at.checked_add(timelock) {
            None => {
                // The deadline lies beyond the clock's range, so it cannot
                // have passed.
                return Err(ContractError::TimelockNotElapsed);
            },
            Some(deadline) => {
                if now < deadline {
                    return Err(ContractError::TimelockNotElapsed);
                }
            },
        }
        if self.is_owner(p.proposed_owner) || self.is_admin(p.proposed_owner) {
            return Err(ContractError::InvalidInput);
        }
        if self.nonce >= u64::MAX - 1 {
            return Err(ContractError::Overflow);
        }
        let old_owner = match self.owner {
            Some(o) => o,
            None => {
                // Unreachable: a pending transfer implies an owner exists.
                return Err(ContractError::NoPendingTransfer);
            },
        };
        self.owner = Some(p.proposed_owner);
        self.pending = None;
        let _ = self.accepted(old_owner, p.proposed_owner, now);
        Ok(())
    }

    /// Configures the timelock that `accept` reads; the change applies
    /// retroactively to any pending transfer.  This writes the stored
    /// parameter only, so no audit record is stamped.
    pub fn set_timelock(&mut self, caller: u64, secs: u64) -> (r: Result<(), ContractError>)
        requires
            old(self).wf(),
        ensures
            final(self).wf(),
            set_timelock_post(*old(self), *final(self), caller, secs, r),
    {
        if !self.is_authorized(caller) {
            return Err(ContractError::Unauthorized);
        }
        self.timelock = Some(secs);
        Ok(())
    }
}

} // verus!
