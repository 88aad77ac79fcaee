//! The authority store: owner identity and the explicit admin set.
//!
//! Every mutator first authorizes its caller through the shared predicate
//! (owner or admin), performs its transition, and stamps one audit record.
//! The minimum-admin guard lives only in `revoke_admin`: it never validates
//! history retroactively, so a contract that begins with zero admins stays
//! valid until an admin exists, after which the set is sticky at one or
//! more for any future revocation.  A refused revocation of the last admin
//! is the one failure that still appends a record: governance violations
//! are auditable, not silent.

use vstd::prelude::*;

use crate::errors::ContractError;
use crate::events::{Event, EVENT_VERSION_V1};
use crate::state::{same_but_log, state_unchanged, ContractState};

verus! {

/// Exactly how `grant_admin` relates its outcome to its inputs.  Granting
/// an existing admin again is a benign no-op: it changes nothing and
/// publishes nothing, so the audit stream describes mutations only.
pub open spec fn grant_admin_post(
    pre: ContractState,
    post: ContractState,
    caller: u64,
    target: u64,
    now: u64,
    r: Result<(), ContractError>,
) -> bool {
    if !pre.is_authorized_spec(caller) {
        r == Err::<(), ContractError>(ContractError::Unauthorized) && state_unchanged(pre, post)
    } else if pre.owner_spec() == Some(target) {
        r == Err::<(), ContractError>(ContractError::InvalidInput) && state_unchanged(pre, post)
    } else if pre.is_admin_spec(target) {
        r == Ok::<(), ContractError>(()) && state_unchanged(pre, post)
    } else if pre.nonce_exhausted() {
        r == Err::<(), ContractError>(ContractError::Overflow) && state_unchanged(pre, post)
    } else {
        &&& r == Ok::<(), ContractError>(())
        &&& post.admins_spec() == pre.admins_spec().push(target)
        &&& post.count_admins_spec() == pre.count_admins_spec() + 1
        &&& post.is_admin_spec(target)
        &&& forall|a: u64| a != target ==> (post.is_admin_spec(a) <==> pre.is_admin_spec(a))
        &&& post.owner_spec() == pre.owner_spec()
        &&& post.pending_spec() == pre.pending_spec()
        &&& post.timelock_spec() == pre.timelock_spec()
        &&& post.config_spec() == pre.config_spec()
        &&& post.nonce_spec() as int == pre.nonce_spec() + 1
        &&& post.log_spec() == pre.log_spec().push(
            Event::Grant {
                event_version: EVENT_VERSION_V1,
                nonce: (pre.nonce_spec() + 1) as u64,
                caller,
                target,
                timestamp: now,
            },
        )
    }
}

/// Exactly how `revoke_admin` relates its outcome to its inputs.  The
/// guard order is part of the contract: authorization, then the owner
/// check, then counter headroom, then the minimum-admin guard (which
/// audits its refusal), then membership.
pub open spec fn revoke_admin_post(
    pre: ContractState,
    post: ContractState,
    caller: u64,
    target: u64,
    now: u64,
    r: Result<(), ContractError>,
) -> bool {
    if !pre.is_authorized_spec(caller) {
        r == Err::<(), ContractError>(ContractError::Unauthorized) && state_unchanged(pre, post)
    } else if pre.owner_spec() == Some(target) {
        r == Err::<(), ContractError>(ContractError::CannotDemoteOwner) && state_unchanged(
            pre,
            post,
        )
    } else if pre.nonce_exhausted() {
        r == Err::<(), ContractError>(ContractError::Overflow) && state_unchanged(pre, post)
    } else if pre.count_admins_spec() <= 1 {
        &&& r == Err::<(), ContractError>(ContractError::InvariantViolation)
        &&& same_but_log(pre, post)
        &&& post.nonce_spec() as int == pre.nonce_spec() + 1
        &&& post.log_spec().len() == pre.log_spec().len() + 1
        &&& post.log_spec().drop_last() == pre.log_spec()
        &&& (post.log_spec().last() matches Event::InvariantViolation {
            event_version,
            nonce,
            operation,
            reason,
            attempted_by,
            timestamp,
        } && {
            &&& event_version == EVENT_VERSION_V1
            &&& nonce as int == pre.nonce_spec() + 1
            &&& operation@ == "revoke_admin"@
            &&& reason@
                == "Cannot revoke last admin - would leave contract with insufficient authorized addresses"@
            &&& attempted_by == caller
            &&& timestamp == now
        })
    } else if !pre.is_admin_spec(target) {
        r == Err::<(), ContractError>(ContractError::NotFound) && state_unchanged(pre, post)
    } else {
        &&& r == Ok::<(), ContractError>(())
        &&& post.admins_spec() == pre.admins_spec().remove_value(target)
        &&& post.count_admins_spec() == pre.count_admins_spec() - 1
        &&& !post.is_admin_spec(target)
        &&& forall|a: u64|
            a != target ==> (post.is_admin_spec(a) <==> pre.is_admin_spec(a))
        &&& post.owner_spec() == pre.owner_spec()
        &&& post.pending_spec() == pre.pending_spec()
        &&& post.timelock_spec() == pre.timelock_spec()
        &&& post.config_spec() == pre.config_spec()
        &&& post.nonce_spec() as int == pre.nonce_spec() + 1
        &&& post.log_spec() == pre.log_spec().push(
            Event::Revoke {
                event_version: EVENT_VERSION_V1,
                nonce: (pre.nonce_spec() + 1) as u64,
                caller,
                target,
                timestamp: now,
            },
        )
    }
}

/// Exactly how `transfer_ownership` relates its outcome to its inputs.
/// The admin set is untouched by a transfer, so an ownership change can
/// never disturb the minimum-admin invariant; transferring to the current
/// owner or to a standing admin is rejected, keeping the owner and the
/// admin set disjoint.
pub open spec fn transfer_ownership_post(
    pre: ContractState,
    post: ContractState,
    caller: u64,
    new_owner: u64,
    now: u64,
    r: Result<(), ContractError>,
) -> bool {
    if !pre.is_authorized_spec(caller) {
        r == Err::<(), ContractError>(ContractError::Unauthorized) && state_unchanged(pre, post)
    } else if pre.owner_spec() == Some(new_owner) || pre.is_admin_spec(new_owner) {
        r == Err::<(), ContractError>(ContractError::InvalidInput) && state_unchanged(pre, post)
    } else if pre.nonce_exhausted() {
        r == Err::<(), ContractError>(ContractError::Overflow) && state_unchanged(pre, post)
    } else {
        &&& r == Ok::<(), ContractError>(())
        &&& post.owner_spec() == Some(new_owner)
        &&& post.admins_spec() == pre.admins_spec()
        &&& post.pending_spec() == pre.pending_spec()
        &&& post.timelock_spec() == pre.timelock_spec()
        &&& post.config_spec() == pre.config_spec()
        &&& post.nonce_spec() as int == pre.nonce_spec() + 1
        &&& post.log_spec() == pre.log_spec().push(
            Event::OwnershipTransfer {
                event_version: EVENT_VERSION_V1,
                nonce: (pre.nonce_spec() + 1) as u64,
                old_owner: pre.owner_spec()->0,
                new_owner,
                timestamp: now,
            },
        )
    }
}

impl ContractState {
    /// Inserts `target` into the admin set and stamps a grant record.
    /// Re-granting a standing admin is a no-op, not an error; granting the
    /// owner is rejected, keeping the owner and the admin set disjoint.
    pub fn grant_admin(&mut self, caller: u64, target: u64, now: u64) -> (r: Result<
        (),
        ContractError,
    >)
        requires
            old(self).wf(),
        ensures
            final(self).wf(),
            grant_admin_post(*old(self), *final(self), caller, target, now, r),
    {
        if !self.is_authorized(caller) {
            return Err(ContractError::Unauthorized);
        }
        if self.is_owner(target) {
            return Err(ContractError::InvalidInput);
        }
        if self.is_admin(target) {
            return Ok(());
        }
        if self.nonce >= u64::MAX - 1 {
            return Err(ContractError::Overflow);
        }
        let n = self.nonce + 1;
        let ghost pre_admins = self.admins@;
        self.admins.push(target);
        proof {
            assert(self.admins@[pre_admins.len() as int] == target);
            assert forall|a: u64| a != target implies (self.admins@.contains(a)
                <==> pre_admins.contains(a)) by {
                if self.admins@.contains(a) {
                    let k = choose|k: int| 0 <= k < self.admins@.len() && self.admins@[k] == a;
                    assert(k < pre_admins.len());
                    assert(pre_admins[k] == a);
                }
                if pre_admins.contains(a) {
                    let k = choose|k: int| 0 <= k < pre_admins.len() && pre_admins[k] == a;
                    assert(self.admins@[k] == a);
                }
            }
        }
        self.push_event(
            Event::Grant {
                event_version: EVENT_VERSION_V1,
                nonce: n,
                caller,
                target,
                timestamp: now,
            },
        );
        Ok(())
    }

    /// Removes `target` from the admin set and stamps a revoke record.
    /// Refuses to shrink the set from one to zero, and in that failure
    /// path still stamps an invariant-violation record before reporting
    /// the error.
    pub fn revoke_admin(&mut self, caller: u64, target: u64, now: u64) -> (r: Result<
        (),
        ContractError,
    >)
        requires
            old(self).wf(),
        ensures
            final(self).wf(),
            revoke_admin_post(*old(self), *final(self), caller, target, now, r),
    {
        if !self.is_authorized(caller) {
            return Err(ContractError::Unauthorized);
        }
        if self.is_owner(target) {
            return Err(ContractError::CannotDemoteOwner);
        }
        if self.nonce >= u64::MAX - 1 {
            return Err(ContractError::Overflow);
        }
        if self.admins.len() <= 1 {
            let _ = self.invariant_violation(
                String::from_str("revoke_admin"),
                String::from_str(
                    "Cannot revoke last admin - would leave contract with insufficient authorized addresses",
                ),
                caller,
                now,
            );
            proof {
                reveal_strlit("revoke_admin");
                reveal_strlit(
                    "Cannot revoke last admin - would leave contract with insufficient authorized addresses",
                );
                assert(self.log_spec().drop_last() =~= old(self).log_spec());
            }
            return Err(ContractError::InvariantViolation);
        }
        let found = self.find_admin(target);
        match found {
            None => Err(ContractError::NotFound),
            Some(i) => {
                let ghost pre_admins = self.admins@;
                self.admins.remove(i);
                proof {
                    pre_admins.index_of_first_ensures(target);
                    assert(pre_admins.index_of_first(target) == Some(i as int)) by {
                        let fi = pre_admins.index_of_first(target).unwrap();
                        assert(pre_admins[fi] == target);
                        assert(pre_admins[i as int] == target);
                    }
                    assert(self.admins@ =~= pre_admins.remove_value(target));
                    assert forall|a: u64| a != target implies (self.admins@.contains(a)
                        <==> pre_admins.contains(a)) by {
                        if self.admins@.contains(a) {
                            let k = choose|k: int|
                                0 <= k < self.admins@.len() && self.admins@[k] == a;
                            if k < i {
                                assert(pre_admins[k] == a);
                            } else {
                                assert(pre_admins[k + 1] == a);
                            }
                        }
                        if pre_admins.contains(a) {
                            let k = choose|k: int|
                                0 <= k < pre_admins.len() && pre_admins[k] == a;
                            if k < i {
                                assert(self.admins@[k] == a);
                            } else {
                                assert(k > i);
                                assert(self.admins@[k - 1] == a);
                            }
                        }
                    }
                    assert(!self.admins@.contains(target)) by {
                        if self.admins@.contains(target) {
                            let k = choose|k: int|
                                0 <= k < self.admins@.len() && self.admins@[k] == target;
                            if k < i {
                                assert(pre_admins[k] == target);
                            } else {
                                assert(pre_admins[k + 1] == target);
                            }
                        }
                    }
                }
                let n = self.nonce + 1;
                self.push_event(
                    Event::Revoke {
                        event_version: EVENT_VERSION_V1,
                        nonce: n,
                        caller,
                        target,
                        timestamp: now,
                    },
                );
                Ok(())
            },
        }
    }

    /// Directly replaces the owner, leaving the admin set untouched, and
    /// stamps an ownership-transfer record.  Transferring to the current
    /// owner or to a standing admin is rejected.
    pub fn transfer_ownership(&mut self, caller: u64, new_owner: u64, now: u64) -> (r: Result<
        (),
        ContractError,
    >)
        requires
            old(self).wf(),
        ensures
            final(self).wf(),
            transfer_ownership_post(*old(self), *final(self), caller, new_owner, now, r),
    {
        if !self.is_authorized(caller) {
            return Err(ContractError::Unauthorized);
        }
        if self.is_owner(new_owner) || self.is_admin(new_owner) {
            return Err(ContractError::InvalidInput);
        }
        if self.nonce >= u64::MAX - 1 {
            return Err(ContractError::Overflow);
        }
        let old_owner = match self.owner {
            Some(o) => o,
            None => {
                // Unreachable: an authorized caller implies an owner exists.
                return Err(ContractError::Unauthorized);
            },
        };
        let n = self.nonce + 1;
        self.owner = Some(new_owner);
        self.push_event(
            Event::OwnershipTransfer {
                event_version: EVENT_VERSION_V1,
                nonce: n,
                old_owner,
                new_owner,
                timestamp: now,
            },
        );
        Ok(())
    }
}

/// Law: in any reachable state with at least one admin, a revocation by an
/// authorized caller targeting a standing admin either fails with
/// `InvariantViolation` — exactly when that admin is the last one, leaving
/// every membership unchanged — or shrinks the set by exactly that admin,
/// changing no other account's membership.
pub proof fn lemma_revoke_preserves_minimum_admin(
    pre: ContractState,
    post: ContractState,
    caller: u64,
    target: u64,
    now: u64,
    r: Result<(), ContractError>,
)
    requires
        pre.wf(),
        pre.is_authorized_spec(caller),
        pre.is_admin_spec(target),
        !pre.nonce_exhausted(),
        revoke_admin_post(pre, post, caller, target, now, r),
    ensures
        pre.count_admins_spec() == 1 ==> r == Err::<(), ContractError>(
            ContractError::InvariantViolation,
        ) && post.count_admins_spec() == 1 && forall|a: u64|
            post.is_admin_spec(a) <==> pre.is_admin_spec(a),
        pre.count_admins_spec() >= 2 ==> r == Ok::<(), ContractError>(())
            && post.count_admins_spec() == pre.count_admins_spec() - 1 && !post.is_admin_spec(
            target,
        ) && forall|a: u64| a != target ==> (post.is_admin_spec(a) <==> pre.is_admin_spec(a)),
{
    let k = choose|k: int| 0 <= k < pre.admins_spec().len() && pre.admins_spec()[k] == target;
    assert(pre.owner_spec() != Some(target));
}

/// Law: granting the same target twice changes the state once — the
/// second call succeeds but leaves every observable (owner, admins,
/// pending transfer, timelock, configuration, nonce counter, and the
/// audit stream) exactly as the first call left it, publishing nothing.
pub proof fn lemma_grant_admin_idempotent(
    s0: ContractState,
    s1: ContractState,
    s2: ContractState,
    caller: u64,
    target: u64,
    now1: u64,
    now2: u64,
    r2: Result<(), ContractError>,
)
    requires
        s0.wf(),
        grant_admin_post(s0, s1, caller, target, now1, Ok::<(), ContractError>(())),
        grant_admin_post(s1, s2, caller, target, now2, r2),
    ensures
        r2 == Ok::<(), ContractError>(()),
        state_unchanged(s1, s2),
{
    if !s0.is_admin_spec(target) {
        assert(s1.admins_spec() == s0.admins_spec().push(target));
        assert(s1.admins_spec()[s0.admins_spec().len() as int] == target);
        assert(s1.is_admin_spec(target));
        if s0.is_admin_spec(caller) {
            let k = choose|k: int|
                0 <= k < s0.admins_spec().len() && s0.admins_spec()[k] == caller;
            assert(s1.admins_spec()[k] == caller);
            assert(s1.is_admin_spec(caller));
        }
    } else {
        if s0.is_admin_spec(caller) {
            assert(s1.is_admin_spec(caller));
        }
    }
}

} // verus!
