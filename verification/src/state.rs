//! The persistent contract state and its well-formedness invariant.
//!
//! [`ContractState`] is the single logical value behind every operation of
//! this crate: the owner, the explicit admin set, the pending ownership
//! transfer, the configured timelock, the rate-limit configuration, the
//! global nonce counter, and the stream of events published so far.  The
//! invariant [`ContractState::wf`] ties the counter to the stream — the
//! record at position `i` carries nonce `i + 1` — so ordering, gap-freedom
//! and duplicate-freedom of emitted nonces hold in every reachable state.

use vstd::prelude::*;

use crate::configurable::Config;
use crate::errors::ContractError;
use crate::events::{Event, EVENT_VERSION_V1};

verus! {

/// Timelock (seconds) between proposing and accepting an ownership
/// transfer when none has been configured explicitly.
pub const DEFAULT_TIMELOCK: u64 = 86_400;

/// The at-most-one pending ownership transfer: the proposed new owner and
/// the chain timestamp at which the proposal was made.
#[derive(Clone, Copy, Debug, PartialEq, Eq, Structural)]
pub struct PendingTransfer {
    pub proposed_owner: u64,
    pub proposed_at: u64,
}

/// The whole persistent state of the governance core.  Fields are crate
/// private; contracts speak through the `*_spec` projections below.
pub struct ContractState {
    pub(crate) owner: Option<u64>,
    pub(crate) admins: Vec<u64>,
    pub(crate) pending: Option<PendingTransfer>,
    pub(crate) timelock: Option<u64>,
    pub(crate) nonce: u64,
    pub(crate) log: Vec<Event>,
    pub(crate) config: Option<Config>,
}

impl ContractState {
    /// The owner account, once initialized.
    pub open(crate) spec fn owner_spec(&self) -> Option<u64> {
        self.owner
    }

    /// The admin set, in insertion order.
    pub open(crate) spec fn admins_spec(&self) -> Seq<u64> {
        self.admins@
    }

    /// The pending ownership transfer, if any.
    pub open(crate) spec fn pending_spec(&self) -> Option<PendingTransfer> {
        self.pending
    }

    /// The explicitly configured timelock, if any.
    pub open(crate) spec fn timelock_spec(&self) -> Option<u64> {
        self.timelock
    }

    /// The value of the global nonce counter: the nonce of the last
    /// published event, or zero if none was published yet.
    pub open(crate) spec fn nonce_spec(&self) -> u64 {
        self.nonce
    }

    /// The events published so far, in emission order.
    pub open(crate) spec fn log_spec(&self) -> Seq<Event> {
        self.log@
    }

    /// The rate-limit configuration, if initialized.
    pub open(crate) spec fn config_spec(&self) -> Option<Config> {
        self.config
    }

    /// Whether one-time initialization has happened.
    pub open spec fn initialized_spec(&self) -> bool {
        self.owner_spec() is Some
    }

    /// Whether `id` is the owner.
    pub open spec fn is_owner_spec(&self, id: u64) -> bool {
        self.owner_spec() == Some(id)
    }

    /// Whether `id` is a member of the explicit admin set.
    pub open spec fn is_admin_spec(&self, id: u64) -> bool {
        self.admins_spec().contains(id)
    }

    /// The shared authorization predicate: the owner and every admin may
    /// mutate; nobody else may.
    pub open spec fn is_authorized_spec(&self, id: u64) -> bool {
        self.is_owner_spec(id) || self.is_admin_spec(id)
    }

    /// Number of explicit admins; the owner is never counted.
    pub open spec fn count_admins_spec(&self) -> nat {
        self.admins_spec().len()
    }

    /// Number of authorized accounts: the owner (once initialized) plus
    /// the admins.  Derived, never stored redundantly.
    pub open spec fn count_authorized_spec(&self) -> nat {
        if self.initialized_spec() {
            1 + self.count_admins_spec()
        } else {
            self.count_admins_spec()
        }
    }

    /// The timelock in force: the configured value, or the default.
    pub open spec fn effective_timelock_spec(&self) -> u64 {
        match self.timelock_spec() {
            Some(t) => t,
            None => DEFAULT_TIMELOCK,
        }
    }

    /// Whether the nonce counter is too close to its bound to stamp
    /// another event.  The final counter value is never allocated, so
    /// derived counts always fit their machine type.
    pub open spec fn nonce_exhausted(&self) -> bool {
        self.nonce_spec() >= u64::MAX - 1
    }

    /// The counter equals the stream length and the record at position `i`
    /// carries nonce `i + 1` and the current schema version.
    pub open spec fn log_wf(&self) -> bool {
        &&& self.nonce_spec() as int == self.log_spec().len()
        &&& self.nonce_spec() < u64::MAX
        &&& forall|i: int|
            0 <= i < self.log_spec().len() ==> (#[trigger] self.log_spec()[i]).nonce_spec() as int
                == i + 1
        &&& forall|i: int|
            0 <= i < self.log_spec().len() ==> (#[trigger] self.log_spec()[i]).version_spec()
                == EVENT_VERSION_V1
    }

    /// The admin set holds no duplicates, never holds the owner, is empty
    /// before initialization (as is the pending transfer), and never
    /// outgrows the number of events published.
    pub open spec fn authority_wf(&self) -> bool {
        &&& forall|i: int, j: int|
            #![trigger self.admins_spec()[i], self.admins_spec()[j]]
            0 <= i < j < self.admins_spec().len() ==> self.admins_spec()[i]
                != self.admins_spec()[j]
        &&& forall|i: int|
            0 <= i < self.admins_spec().len() ==> self.owner_spec() != Some(
                #[trigger] self.admins_spec()[i],
            )
        &&& !self.initialized_spec() ==> self.admins_spec().len() == 0 && self.pending_spec()
            is None
        &&& self.admins_spec().len() <= self.nonce_spec()
    }

    /// Well-formedness: established by [`ContractState::new`], preserved by
    /// every operation, failed ones included.
    pub open spec fn wf(&self) -> bool {
        self.log_wf() && self.authority_wf()
    }
}

/// The two states agree on everything except the nonce counter and the
/// event stream.
pub open spec fn same_but_log(pre: ContractState, post: ContractState) -> bool {
    &&& post.owner_spec() == pre.owner_spec()
    &&& post.admins_spec() == pre.admins_spec()
    &&& post.pending_spec() == pre.pending_spec()
    &&& post.timelock_spec() == pre.timelock_spec()
    &&& post.config_spec() == pre.config_spec()
}

/// The two states agree on every observable: how a failed operation
/// (other than the audited minimum-admin violation) leaves the state.
pub open spec fn state_unchanged(pre: ContractState, post: ContractState) -> bool {
    &&& same_but_log(pre, post)
    &&& post.nonce_spec() == pre.nonce_spec()
    &&& post.log_spec() == pre.log_spec()
}

/// Exactly how `initialize` relates its outcome to its inputs.
pub open spec fn initialize_post(
    pre: ContractState,
    post: ContractState,
    owner: u64,
    r: Result<(), ContractError>,
) -> bool {
    if pre.initialized_spec() {
        r == Err::<(), ContractError>(ContractError::AlreadyInitialized) && state_unchanged(
            pre,
            post,
        )
    } else {
        r == Ok::<(), ContractError>(()) && post.owner_spec() == Some(owner) && post.admins_spec()
            == pre.admins_spec() && post.pending_spec() == pre.pending_spec()
            && post.timelock_spec() == pre.timelock_spec() && post.config_spec()
            == pre.config_spec() && post.nonce_spec() == pre.nonce_spec() && post.log_spec()
            == pre.log_spec()
    }
}

impl ContractState {
    /// A fresh, uninitialized state: no owner, no admins, no pending
    /// transfer, default timelock, counter at zero, empty stream, no
    /// configuration.
    pub fn new() -> (s: ContractState)
        ensures
            s.wf(),
            !s.initialized_spec(),
            s.owner_spec() is None,
            s.admins_spec() == Seq::<u64>::empty(),
            s.pending_spec() is None,
            s.timelock_spec() is None,
            s.nonce_spec() == 0,
            s.log_spec() == Seq::<Event>::empty(),
            s.config_spec() is None,
    {
        let s = ContractState {
            owner: None,
            admins: Vec::new(),
            pending: None,
            timelock: None,
            nonce: 0,
            log: Vec::new(),
            config: None,
        };
        proof {
            assert(s.admins@ =~= Seq::<u64>::empty());
            assert(s.log@ =~= Seq::<Event>::empty());
        }
        s
    }

    /// One-time initialization: records the owner.  Publishes no event;
    /// the counter starts moving with the first mutation proper.
    pub fn initialize(&mut self, owner: u64) -> (r: Result<(), ContractError>)
        requires
            old(self).wf(),
        ensures
            final(self).wf(),
            initialize_post(*old(self), *final(self), owner, r),
    {
        if self.owner.is_some() {
            return Err(ContractError::AlreadyInitialized);
        }
        self.owner = Some(owner);
        Ok(())
    }

    /// Whether `id` is the owner.
    pub fn is_owner(&self, id: u64) -> (r: bool)
        ensures
            r == self.is_owner_spec(id),
    {
        match self.owner {
            Some(o) => o == id,
            None => false,
        }
    }

    /// The index of `id` in the admin vector, if present.
    pub(crate) fn find_admin(&self, id: u64) -> (r: Option<usize>)
        ensures
            r is Some <==> self.is_admin_spec(id),
            r matches Some(i) ==> i < self.admins_spec().len() && self.admins_spec()[i as int]
                == id,
    {
        let n = self.admins.len();
        for i in 0..n
            invariant
                n == self.admins.len(),
                forall|k: int| 0 <= k < i ==> self.admins@[k] != id,
        {
            if self.admins[i] == id {
                return Some(i);
            }
        }
        proof {
            assert(!self.admins@.contains(id)) by {
                if self.admins@.contains(id) {
                    let k = choose|k: int| 0 <= k < self.admins@.len() && self.admins@[k] == id;
                    assert(self.admins@[k] == id);
                }
            }
        }
        None
    }

    /// Whether `id` is a member of the explicit admin set.
    pub fn is_admin(&self, id: u64) -> (r: bool)
        ensures
            r == self.is_admin_spec(id),
    {
        self.find_admin(id).is_some()
    }

    /// Whether `id` may mutate: the shared authorization predicate invoked
    /// at the top of every mutator.
    pub fn is_authorized(&self, id: u64) -> (r: bool)
        ensures
            r == self.is_authorized_spec(id),
    {
        self.is_owner(id) || self.is_admin(id)
    }

    /// Number of explicit admins; the owner is never counted.
    pub fn count_admins(&self) -> (r: u64)
        requires
            self.wf(),
        ensures
            r == self.count_admins_spec(),
    {
        self.admins.len() as u64
    }

    /// Number of authorized accounts: the owner (once initialized) plus
    /// the admins.
    pub fn count_authorized(&self) -> (r: u64)
        requires
            self.wf(),
        ensures
            r == self.count_authorized_spec(),
    {
        let c = self.admins.len() as u64;
        if self.owner.is_some() {
            c + 1
        } else {
            c
        }
    }

    /// The owner account, or `None` before initialization.
    pub fn get_owner(&self) -> (r: Option<u64>)
        ensures
            r == self.owner_spec(),
    {
        self.owner
    }

    /// The pending ownership transfer, if any.
    pub fn get_pending(&self) -> (r: Option<PendingTransfer>)
        ensures
            r == self.pending_spec(),
    {
        self.pending
    }

    /// The timelock in force: the configured value, or the default.
    pub fn get_timelock(&self) -> (r: u64)
        ensures
            r == self.effective_timelock_spec(),
    {
        match self.timelock {
            Some(t) => t,
            None => DEFAULT_TIMELOCK,
        }
    }

    /// The admin vector, in insertion order, for host-side persistence.
    pub fn admins_list(&self) -> (r: &Vec<u64>)
        ensures
            r@ == self.admins_spec(),
    {
        &self.admins
    }

    /// The explicitly configured timelock, if any, for host-side
    /// persistence; [`ContractState::get_timelock`] resolves the default.
    pub fn timelock_setting(&self) -> (r: Option<u64>)
        ensures
            r == self.timelock_spec(),
    {
        self.timelock
    }

    /// The rate-limit configuration, if initialized.
    pub fn get_config(&self) -> (r: Option<Config>)
        ensures
            r == self.config_spec(),
    {
        self.config
    }

    /// The event at position `i` of the stream, for external inspection.
    pub fn event_at(&self, i: usize) -> (r: &Event)
        requires
            i < self.log_spec().len(),
        ensures
            *r == self.log_spec()[i as int],
    {
        &self.log[i]
    }

    /// How many events were published so far.
    pub fn event_count(&self) -> (r: usize)
        ensures
            r == self.log_spec().len(),
    {
        self.log.len()
    }

    /// Appends one freshly stamped record and advances the counter.  The
    /// record must carry the next nonce and the current schema version.
    pub(crate) fn push_event(&mut self, ev: Event)
        requires
            old(self).log_wf(),
            !old(self).nonce_exhausted(),
            ev.nonce_spec() as int == old(self).nonce_spec() + 1,
            ev.version_spec() == EVENT_VERSION_V1,
        ensures
            final(self).log_wf(),
            final(self).log_spec() == old(self).log_spec().push(ev),
            final(self).nonce_spec() as int == old(self).nonce_spec() + 1,
            same_but_log(*old(self), *final(self)),
    {
        self.log.push(ev);
        self.nonce = self.nonce + 1;
    }
}

/// Whether stored parts reassemble into a well-formed state: exactly the
/// conditions of [`ContractState::wf`], stated over the raw parts, with
/// the counter value determined by the stream length.
pub open spec fn parts_wf(
    owner: Option<u64>,
    admins: Seq<u64>,
    pending: Option<PendingTransfer>,
    log: Seq<Event>,
) -> bool {
    &&& log.len() < u64::MAX
    &&& forall|i: int| 0 <= i < log.len() ==> (#[trigger] log[i]).nonce_spec() as int == i + 1
    &&& forall|i: int| 0 <= i < log.len() ==> (#[trigger] log[i]).version_spec() == EVENT_VERSION_V1
    &&& forall|i: int, j: int|
        #![trigger admins[i], admins[j]]
        0 <= i < j < admins.len() ==> admins[i] != admins[j]
    &&& forall|i: int| 0 <= i < admins.len() ==> owner != Some(#[trigger] admins[i])
    &&& owner is None ==> admins.len() == 0 && pending is None
    &&& admins.len() <= log.len()
}

impl ContractState {
    /// Reassembles a state from stored parts, validating everything the
    /// invariant demands: sequential nonces and the known schema version
    /// throughout the stream, no duplicate admins, the owner outside the
    /// admin set, nothing granted or pending before initialization, and
    /// the counter (the stream length) within range.  Returns `None`
    /// exactly when the parts do not form a well-formed state.
    pub fn restore(
        owner: Option<u64>,
        admins: Vec<u64>,
        pending: Option<PendingTransfer>,
        timelock: Option<u64>,
        log: Vec<Event>,
        config: Option<Config>,
    ) -> (r: Option<ContractState>)
        ensures
            r is Some <==> parts_wf(owner, admins@, pending, log@),
            r matches Some(s) ==> {
                &&& s.wf()
                &&& s.owner_spec() == owner
                &&& s.admins_spec() == admins@
                &&& s.pending_spec() == pending
                &&& s.timelock_spec() == timelock
                &&& s.nonce_spec() as int == log@.len()
                &&& s.log_spec() == log@
                &&& s.config_spec() == config
            },
    {
        if (log.len() as u64) >= u64::MAX {
            return None;
        }
        let n = log.len();
        for i in 0..n
            invariant
                n == log@.len(),
                n < u64::MAX,
                forall|k: int|
                    0 <= k < i ==> (#[trigger] log@[k]).nonce_spec() as int == k + 1
                        && log@[k].version_spec() == EVENT_VERSION_V1,
        {
            if log[i].nonce() != (i as u64) + 1 {
                return None;
            }
            if log[i].version() != EVENT_VERSION_V1 {
                return None;
            }
        }
        match owner {
            None => {
                if admins.len() > 0 {
                    return None;
                }
                if pending.is_some() {
                    return None;
                }
            },
            Some(_) => {},
        }
        if admins.len() > log.len() {
            return None;
        }
        let m = admins.len();
        for i in 0..m
            invariant
                m == admins@.len(),
                forall|x: int, y: int|
                    #![trigger admins@[x], admins@[y]]
                    0 <= x < y < admins@.len() && x < i ==> admins@[x] != admins@[y],
                forall|k: int| 0 <= k < i ==> owner != Some(#[trigger] admins@[k]),
        {
            match owner {
                Some(o) => {
                    if admins[i] == o {
                        return None;
                    }
                },
                None => {},
            }
            let next = i + 1;
            for j in next..m
                invariant
                    m == admins@.len(),
                    i < m,
                    next == i + 1,
                    forall|y: int| i < y < j ==> admins@[i as int] != admins@[y],
            {
                if admins[j] == admins[i] {
                    return None;
                }
            }
        }
        let nonce = log.len() as u64;
        Some(ContractState { owner, admins, pending, timelock, nonce, log, config })
    }
}

/// Law: the number of authorized accounts always equals one (the owner)
/// plus the number of admins, and so never drops below one.  The count is
/// derived, never stored, and every operation of this crate preserves `wf`
/// and initialization, so this equality holds after every operation,
/// failed ones included.
pub proof fn lemma_count_authorized_invariant(s: ContractState)
    requires
        s.wf(),
        s.initialized_spec(),
    ensures
        s.count_authorized_spec() == 1 + s.count_admins_spec(),
        s.count_authorized_spec() >= 1,
{
}

/// Law: nonce monotonicity.  In every well-formed state the published
/// stream carries nonces `1, 2, ..., N` in emission order, with no repeats
/// and no gaps; since every successful mutating operation appends exactly
/// one freshly stamped record, the nonces emitted by `N` successful
/// mutating calls from a fresh state are exactly `{1, ..., N}`.
pub proof fn lemma_nonce_monotonic(s: ContractState)
    requires
        s.wf(),
    ensures
        s.nonce_spec() as int == s.log_spec().len(),
        forall|i: int|
            0 <= i < s.log_spec().len() ==> (#[trigger] s.log_spec()[i]).nonce_spec() as int == i
                + 1,
        forall|i: int, j: int|
            #![trigger s.log_spec()[i].nonce_spec(), s.log_spec()[j].nonce_spec()]
            0 <= i < j < s.log_spec().len() ==> s.log_spec()[i].nonce_spec()
                < s.log_spec()[j].nonce_spec(),
{
}

} // verus!
