//! The event sequencer surface for the domain modules.
//!
//! The content-addressed domain modules (confessions, reactions, reports,
//! roles) are external collaborators; what they share with the governance
//! core is the single nonce space.  Each emitter below allocates the next
//! nonce, stamps the payload, appends it to the stream, and returns the
//! allocated nonce, all within the one transition, so a nonce is consumed
//! exactly when its event is published.

use vstd::prelude::*;

use crate::errors::ContractError;
use crate::events::{
    ConfessionEvent, Event, ReactionEvent, ReportEvent, RoleEvent, EVENT_VERSION_V1,
};
use crate::state::{same_but_log, state_unchanged, ContractState};

verus! {

/// Exactly how `emit_confession` relates its outcome to its inputs.
pub open spec fn emit_confession_post(
    pre: ContractState,
    post: ContractState,
    confession_id: u64,
    author: u64,
    content_hash: String,
    now: u64,
    r: Result<u64, ContractError>,
) -> bool {
    if pre.nonce_exhausted() {
        r == Err::<u64, ContractError>(ContractError::Overflow) && state_unchanged(pre, post)
    } else {
        &&& r == Ok::<u64, ContractError>((pre.nonce_spec() + 1) as u64)
        &&& same_but_log(pre, post)
        &&& post.nonce_spec() as int == pre.nonce_spec() + 1
        &&& post.log_spec() == pre.log_spec().push(
            Event::Confession(
                ConfessionEvent {
                    event_version: EVENT_VERSION_V1,
                    nonce: (pre.nonce_spec() + 1) as u64,
                    confession_id,
                    author,
                    content_hash,
                    timestamp: now,
                },
            ),
        )
    }
}

/// Exactly how `emit_reaction` relates its outcome to its inputs.
pub open spec fn emit_reaction_post(
    pre: ContractState,
    post: ContractState,
    confession_id: u64,
    reactor: u64,
    reaction_type: String,
    now: u64,
    r: Result<u64, ContractError>,
) -> bool {
    if pre.nonce_exhausted() {
        r == Err::<u64, ContractError>(ContractError::Overflow) && state_unchanged(pre, post)
    } else {
        &&& r == Ok::<u64, ContractError>((pre.nonce_spec() + 1) as u64)
        &&& same_but_log(pre, post)
        &&& post.nonce_spec() as int == pre.nonce_spec() + 1
        &&& post.log_spec() == pre.log_spec().push(
            Event::Reaction(
                ReactionEvent {
                    event_version: EVENT_VERSION_V1,
                    nonce: (pre.nonce_spec() + 1) as u64,
                    confession_id,
                    reactor,
                    reaction_type,
                    timestamp: now,
                },
            ),
        )
    }
}

/// Exactly how `emit_report` relates its outcome to its inputs.
pub open spec fn emit_report_post(
    pre: ContractState,
    post: ContractState,
    confession_id: u64,
    reporter: u64,
    reason: String,
    now: u64,
    r: Result<u64, ContractError>,
) -> bool {
    if pre.nonce_exhausted() {
        r == Err::<u64, ContractError>(ContractError::Overflow) && state_unchanged(pre, post)
    } else {
        &&& r == Ok::<u64, ContractError>((pre.nonce_spec() + 1) as u64)
        &&& same_but_log(pre, post)
        &&& post.nonce_spec() as int == pre.nonce_spec() + 1
        &&& post.log_spec() == pre.log_spec().push(
            Event::Report(
                ReportEvent {
                    event_version: EVENT_VERSION_V1,
                    nonce: (pre.nonce_spec() + 1) as u64,
                    confession_id,
                    reporter,
                    reason,
                    timestamp: now,
                },
            ),
        )
    }
}

/// Exactly how `emit_role` relates its outcome to its inputs.
pub open spec fn emit_role_post(
    pre: ContractState,
    post: ContractState,
    user: u64,
    role: String,
    granted: bool,
    now: u64,
    r: Result<u64, ContractError>,
) -> bool {
    if pre.nonce_exhausted() {
        r == Err::<u64, ContractError>(ContractError::Overflow) && state_unchanged(pre, post)
    } else {
        &&& r == Ok::<u64, ContractError>((pre.nonce_spec() + 1) as u64)
        &&& same_but_log(pre, post)
        &&& post.nonce_spec() as int == pre.nonce_spec() + 1
        &&& post.log_spec() == pre.log_spec().push(
            Event::Role(
                RoleEvent {
                    event_version: EVENT_VERSION_V1,
                    nonce: (pre.nonce_spec() + 1) as u64,
                    user,
                    role,
                    granted,
                    timestamp: now,
                },
            ),
        )
    }
}

impl ContractState {
    /// Publishes a confession event stamped with the next nonce and
    /// returns that nonce.
    pub fn emit_confession(
        &mut self,
        confession_id: u64,
        author: u64,
        content_hash: String,
        now: u64,
    ) -> (r: Result<u64, ContractError>)
        requires
            old(self).wf(),
        ensures
            final(self).wf(),
            emit_confession_post(
                *old(self),
                *final(self),
                confession_id,
                author,
                content_hash,
                now,
                r,
            ),
    {
        if self.nonce >= u64::MAX - 1 {
            return Err(ContractError::Overflow);
        }
        let n = self.nonce + 1;
        self.push_event(
            Event::Confession(
                ConfessionEvent {
                    event_version: EVENT_VERSION_V1,
                    nonce: n,
                    confession_id,
                    author,
                    content_hash,
                    timestamp: now,
                },
            ),
        );
        Ok(n)
    }

    /// Publishes a reaction event stamped with the next nonce and returns
    /// that nonce.
    pub fn emit_reaction(
        &mut self,
        confession_id: u64,
        reactor: u64,
        reaction_type: String,
        now: u64,
    ) -> (r: Result<u64, ContractError>)
        requires
            old(self).wf(),
        ensures
            final(self).wf(),
            emit_reaction_post(
                *old(self),
                *final(self),
                confession_id,
                reactor,
                reaction_type,
                now,
                r,
            ),
    {
        if self.nonce >= u64::MAX - 1 {
            return Err(ContractError::Overflow);
        }
        let n = self.nonce + 1;
        self.push_event(
            Event::Reaction(
                ReactionEvent {
                    event_version: EVENT_VERSION_V1,
                    nonce: n,
                    confession_id,
                    reactor,
                    reaction_type,
                    timestamp: now,
                },
            ),
        );
        Ok(n)
    }

    /// Publishes a report event stamped with the next nonce and returns
    /// that nonce.
    pub fn emit_report(
        &mut self,
        confession_id: u64,
        reporter: u64,
        reason: String,
        now: u64,
    ) -> (r: Result<u64, ContractError>)
        requires
            old(self).wf(),
        ensures
            final(self).wf(),
            emit_report_post(*old(self), *final(self), confession_id, reporter, reason, now, r),
    {
        if self.nonce >= u64::MAX - 1 {
            return Err(ContractError::Overflow);
        }
        let n = self.nonce + 1;
        self.push_event(
            Event::Report(
                ReportEvent {
                    event_version: EVENT_VERSION_V1,
                    nonce: n,
                    confession_id,
                    reporter,
                    reason,
                    timestamp: now,
                },
            ),
        );
        Ok(n)
    }

    /// Publishes a role event stamped with the next nonce and returns
    /// that nonce.
    pub fn emit_role(&mut self, user: u64, role: String, granted: bool, now: u64) -> (r: Result<
        u64,
        ContractError,
    >)
        requires
            old(self).wf(),
        ensures
            final(self).wf(),
            emit_role_post(*old(self), *final(self), user, role, granted, now, r),
    {
        if self.nonce >= u64::MAX - 1 {
            return Err(ContractError::Overflow);
        }
        let n = self.nonce + 1;
        self.push_event(
            Event::Role(
                RoleEvent {
                    event_version: EVENT_VERSION_V1,
                    nonce: n,
                    user,
                    role,
                    granted,
                    timestamp: now,
                },
            ),
        );
        Ok(n)
    }

    /// The current value of the global nonce counter: the nonce of the
    /// last published event, or zero before the first one.
    pub fn get_current_nonce(&self) -> (r: u64)
        ensures
            r == self.nonce_spec(),
    {
        self.nonce
    }

    /// The latest allocated nonce, for indexer reconciliation.  Governance
    /// and domain events share the one sequence space, so this equals
    /// [`ContractState::get_current_nonce`].
    pub fn get_latest_gov_nonce(&self) -> (r: u64)
        ensures
            r == self.nonce_spec(),
    {
        self.nonce
    }
}

} // verus!
