//! Admin-gated, cooldown-limited rate-limit parameter store.
//!
//! [`Config`] holds the bounded parameters and the timestamp of the last
//! successful update; the authorization and audit wrapper lives on
//! [`crate::state::ContractState`], which authorizes the caller and stamps
//! the before/after change event.

use vstd::prelude::*;

use crate::errors::ContractError;
use crate::events::{Event, EVENT_VERSION_V1};
use crate::state::{same_but_log, state_unchanged, ContractState};

verus! {

/// Upper bound on the `limits` parameter.
pub const MAX_LIMITS: u32 = 10_000;

/// Upper bound on the `threshold` parameter.
pub const MAX_THRESHOLD: u32 = 1_000;

/// Upper bound on the `window` parameter (seconds).
pub const MAX_WINDOW: u32 = 86_400;

/// Seconds that must elapse after a successful update before the next one.
pub const CONFIG_COOLDOWN: u64 = 3_600;

/// Rate-limit parameters and the chain timestamp of their last successful
/// update.  A fresh configuration carries `last_update == 0`, so the first
/// update is gated only by the cooldown measured from the epoch.
#[derive(Clone, Copy, Debug, PartialEq, Eq, Structural)]
pub struct Config {
    pub limits: u32,
    pub threshold: u32,
    pub window: u32,
    pub last_update: u64,
}

/// Whether proposed parameters are within their fixed upper bounds.
pub open spec fn config_bounds_ok(limits: u32, threshold: u32, window: u32) -> bool {
    limits <= MAX_LIMITS && threshold <= MAX_THRESHOLD && window <= MAX_WINDOW
}

/// Whether the cooldown, measured from the last successful update, has
/// elapsed at time `now`.
pub open spec fn cooldown_elapsed(last_update: u64, now: u64) -> bool {
    now >= last_update + CONFIG_COOLDOWN
}

/// Exactly how `Config::update` relates its outcome to its inputs: the
/// parameters are validated against their fixed bounds first, then the
/// cooldown is enforced, and only then do the fields and the last-update
/// timestamp change.
pub open spec fn config_update_post(
    pre: Config,
    post: Config,
    new_limits: u32,
    new_threshold: u32,
    new_window: u32,
    now: u64,
    r: Result<(), ContractError>,
) -> bool {
    if !config_bounds_ok(new_limits, new_threshold, new_window) {
        r == Err::<(), ContractError>(ContractError::InvalidInput) && post == pre
    } else if !cooldown_elapsed(pre.last_update, now) {
        r == Err::<(), ContractError>(ContractError::CooldownActive) && post == pre
    } else {
        r == Ok::<(), ContractError>(())
            && post == (Config {
                limits: new_limits,
                threshold: new_threshold,
                window: new_window,
                last_update: now,
            })
    }
}

impl Config {
    /// Creates a configuration with the given parameters and no recorded
    /// update.  Initialization does not validate bounds; only updates do.
    pub fn init(limits: u32, threshold: u32, window: u32) -> (c: Config)
        ensures
            c == (Config { limits, threshold, window, last_update: 0u64 }),
    {
        Config { limits, threshold, window, last_update: 0 }
    }

    /// Replaces the parameters after validating each against its fixed
    /// upper bound and enforcing the cooldown measured against the last
    /// successful update.  On failure the configuration is unchanged.
    pub fn update(
        &mut self,
        new_limits: u32,
        new_threshold: u32,
        new_window: u32,
        now: u64,
    ) -> (r: Result<(), ContractError>)
        ensures
            config_update_post(*old(self), *final(self), new_limits, new_threshold, new_window, now, r),
    {
        if new_limits > MAX_LIMITS || new_threshold > MAX_THRESHOLD || new_window > MAX_WINDOW {
            return Err(ContractError::InvalidInput);
        }
        if !(now >= self.last_update && now - self.last_update >= CONFIG_COOLDOWN) {
            return Err(ContractError::CooldownActive);
        }
        self.limits = new_limits;
        self.threshold = new_threshold;
        self.window = new_window;
        self.last_update = now;
        Ok(())
    }
}

/// Access-control facade of the configuration surface: it delegates to the
/// one shared authorization predicate, so the policy can only drift in one
/// place.
pub struct Admin;

impl Admin {
    /// Succeeds exactly when `caller` is the owner or an admin.
    pub fn require_admin(state: &ContractState, caller: u64) -> (r: Result<(), ContractError>)
        ensures
            r == if state.is_authorized_spec(caller) {
                Ok::<(), ContractError>(())
            } else {
                Err::<(), ContractError>(ContractError::Unauthorized)
            },
    {
        if state.is_authorized(caller) {
            Ok(())
        } else {
            Err(ContractError::Unauthorized)
        }
    }
}

impl ContractState {
    /// Publishes the before/after configuration-change record, stamped
    /// with the next nonce, which it returns.
    pub fn emit_config_update(
        &mut self,
        old_limits: u32,
        old_threshold: u32,
        old_window: u32,
        new_limits: u32,
        new_threshold: u32,
        new_window: u32,
        now: u64,
    ) -> (r: Result<u64, ContractError>)
        requires
            old(self).wf(),
        ensures
            final(self).wf(),
            old(self).nonce_exhausted() ==> r == Err::<u64, ContractError>(ContractError::Overflow)
                && state_unchanged(*old(self), *final(self)),
            !old(self).nonce_exhausted() ==> {
                &&& r == Ok::<u64, ContractError>((old(self).nonce_spec() + 1) as u64)
                &&& same_but_log(*old(self), *final(self))
                &&& final(self).nonce_spec() as int == old(self).nonce_spec() + 1
                &&& final(self).log_spec() == old(self).log_spec().push(
                    Event::ConfigUpdate {
                        event_version: EVENT_VERSION_V1,
                        nonce: (old(self).nonce_spec() + 1) as u64,
                        old_limits,
                        old_threshold,
                        old_window,
                        new_limits,
                        new_threshold,
                        new_window,
                        timestamp: now,
                    },
                )
            },
    {
        if self.nonce >= u64::MAX - 1 {
            return Err(ContractError::Overflow);
        }
        let n = self.nonce + 1;
        self.push_event(
            Event::ConfigUpdate {
                event_version: EVENT_VERSION_V1,
                nonce: n,
                old_limits,
                old_threshold,
                old_window,
                new_limits,
                new_threshold,
                new_window,
                timestamp: now,
            },
        );
        Ok(n)
    }
}

/// Exactly how `update_config` relates its outcome to its inputs.  The
/// cooldown is measured against the last successful update only, and the
/// stamped record carries the configuration before and after the change.
pub open spec fn update_config_post(
    pre: ContractState,
    post: ContractState,
    caller: u64,
    new_limits: u32,
    new_threshold: u32,
    new_window: u32,
    now: u64,
    r: Result<(), ContractError>,
) -> bool {
    if !pre.is_authorized_spec(caller) {
        r == Err::<(), ContractError>(ContractError::Unauthorized) && state_unchanged(pre, post)
    } else if pre.config_spec() is None {
        r == Err::<(), ContractError>(ContractError::NotFound) && state_unchanged(pre, post)
    } else if pre.nonce_exhausted() {
        r == Err::<(), ContractError>(ContractError::Overflow) && state_unchanged(pre, post)
    } else {
        let cfg = pre.config_spec()->0;
        if !config_bounds_ok(new_limits, new_threshold, new_window) {
            r == Err::<(), ContractError>(ContractError::InvalidInput) && state_unchanged(
                pre,
                post,
            )
        } else if !cooldown_elapsed(cfg.last_update, now) {
            r == Err::<(), ContractError>(ContractError::CooldownActive) && state_unchanged(
                pre,
                post,
            )
        } else {
            &&& r == Ok::<(), ContractError>(())
            &&& post.config_spec() == Some(
                Config {
                    limits: new_limits,
                    threshold: new_threshold,
                    window: new_window,
                    last_update: now,
                },
            )
            &&& post.owner_spec() == pre.owner_spec()
            &&& post.admins_spec() == pre.admins_spec()
            &&& post.pending_spec() == pre.pending_spec()
            &&& post.timelock_spec() == pre.timelock_spec()
            &&& post.nonce_spec() as int == pre.nonce_spec() + 1
            &&& post.log_spec() == pre.log_spec().push(
                Event::ConfigUpdate {
                    event_version: EVENT_VERSION_V1,
                    nonce: (pre.nonce_spec() + 1) as u64,
                    old_limits: cfg.limits,
                    old_threshold: cfg.threshold,
                    old_window: cfg.window,
                    new_limits,
                    new_threshold,
                    new_window,
                    timestamp: now,
                },
            )
        }
    }
}

impl ContractState {
    /// Installs the rate-limit configuration with no recorded update; the
    /// host calls this once at deployment, so it is not caller-gated and
    /// stamps no record.
    pub fn init_config(&mut self, limits: u32, threshold: u32, window: u32)
        requires
            old(self).wf(),
        ensures
            final(self).wf(),
            final(self).config_spec() == Some(
                Config { limits, threshold, window, last_update: 0u64 },
            ),
            final(self).owner_spec() == old(self).owner_spec(),
            final(self).admins_spec() == old(self).admins_spec(),
            final(self).pending_spec() == old(self).pending_spec(),
            final(self).timelock_spec() == old(self).timelock_spec(),
            final(self).nonce_spec() == old(self).nonce_spec(),
            final(self).log_spec() == old(self).log_spec(),
    {
        self.config = Some(Config::init(limits, threshold, window));
    }

    /// Replaces the rate-limit parameters after authorizing the caller,
    /// validating the bounds, and enforcing the cooldown; on success a
    /// before/after record is stamped and the cooldown clock restarts at
    /// `now`.
    pub fn update_config(
        &mut self,
        caller: u64,
        new_limits: u32,
        new_threshold: u32,
        new_window: u32,
        now: u64,
    ) -> (r: Result<(), ContractError>)
        requires
            old(self).wf(),
        ensures
            final(self).wf(),
            update_config_post(
                *old(self),
                *final(self),
                caller,
                new_limits,
                new_threshold,
                new_window,
                now,
                r,
            ),
    {
        if !self.is_authorized(caller) {
            return Err(ContractError::Unauthorized);
        }
        let mut cfg = match self.config {
            Some(c) => c,
            None => {
                return Err(ContractError::NotFound);
            },
        };
        if self.nonce >= u64::MAX - 1 {
            return Err(ContractError::Overflow);
        }
        let old_limits = cfg.limits;
        let old_threshold = cfg.threshold;
        let old_window = cfg.window;
        match cfg.update(new_limits, new_threshold, new_window, now) {
            Err(e) => Err(e),
            Ok(()) => {
                self.config = Some(cfg);
                let _ = self.emit_config_update(
                    old_limits,
                    old_threshold,
                    old_window,
                    new_limits,
                    new_threshold,
                    new_window,
                    now,
                );
                Ok(())
            },
        }
    }
}

} // verus!
