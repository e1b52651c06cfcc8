use vstd::prelude::*;
use crate::config::Config;

verus! {

/// What one reachability probe reported.
#[derive(Clone, Copy, PartialEq, Eq, Structural, Debug)]
pub enum ProbeOutcome {
    Reachable,
    Unreachable,
}

/// The store mutation one failed-probe cycle calls for.
#[derive(Clone, Copy, PartialEq, Eq, Structural, Debug)]
pub enum MissAction {
    /// Increment the miss counter so it reads `value`, and reset its
    /// time-to-live to `ttl` seconds.
    Bump { value: u64, ttl: u64 },
    /// Delete both the address record and the miss counter.
    Cleanup,
}

/// What one whole poll cycle did to the store.
#[derive(Clone, Copy, PartialEq, Eq, Structural, Debug)]
pub enum CycleEvent {
    /// No address record was stored: nothing probed, nothing written.
    Skipped,
    /// The probe succeeded: nothing written.
    StillUp,
    /// The probe failed below the threshold: counter raised to `value`,
    /// time-to-live reset to `ttl` seconds.
    Bumped { value: u64, ttl: u64 },
    /// The probe failed past the threshold: both keys deleted.
    CleanedUp,
}

/// The store contents for one tracked key. All of the tracker's state lives
/// in the store, so one value of this type is a full snapshot of a key's
/// presence state.
#[derive(Debug, PartialEq, Eq)]
pub struct KeyState {
    /// The address record stored under the tracked key itself.
    pub address: Option<String>,
    /// The miss counter stored under `<key>_misses`; absent reads as zero.
    pub misses: Option<u64>,
}

impl KeyState {
    /// The logical miss count: the stored value, or zero when absent.
    pub open spec fn counter(&self) -> int {
        match self.misses {
            None => 0,
            Some(n) => n as int,
        }
    }

    /// The counter, while stored, stays between one and one past the
    /// threshold.
    pub open spec fn wf(&self, conf: Config) -> bool {
        match self.misses {
            None => true,
            Some(n) => 1 <= n <= conf.max_misses + 1,
        }
    }

    /// The address resolver: a passthrough read of the stored address record.
    pub fn resolve(&self) -> (r: Option<String>)
        ensures
            r is Some <==> self.address is Some,
            r matches Some(a) ==> (self.address matches Some(b) && a@ == b@),
    {
        match &self.address {
            Some(addr) => Some(addr.clone()),
            None => None,
        }
    }
}

/// The miss tracker's decision on one failed probe, given the stored counter
/// value `n` (zero when absent): strictly past the threshold, clean up;
/// otherwise raise the counter by one and renew its time-to-live. The strict
/// comparison lets the counter reach `max_misses + 1` before cleanup fires on
/// the cycle after that.
pub open spec fn miss_step(n: int, conf: Config) -> MissAction {
    if n > conf.max_misses {
        MissAction::Cleanup
    } else {
        MissAction::Bump { value: (n + 1) as u64, ttl: conf.miss_ttl_spec() as u64 }
    }
}

/// One whole poll cycle over the store snapshot: skip when no address is
/// known, leave the store alone on a reachable probe, and otherwise apply the
/// miss tracker's decision.
pub open spec fn step(s: KeyState, probed: Option<ProbeOutcome>, conf: Config) -> (KeyState,
    CycleEvent) {
    if s.address is None {
        (s, CycleEvent::Skipped)
    } else if probed == Some(ProbeOutcome::Unreachable) {
        match miss_step(s.counter(), conf) {
            MissAction::Cleanup => (KeyState { address: None, misses: None }, CycleEvent::CleanedUp),
            MissAction::Bump { value, ttl } => (
                KeyState { address: s.address, misses: Some(value) },
                CycleEvent::Bumped { value, ttl },
            ),
        }
    } else {
        (s, CycleEvent::StillUp)
    }
}

/// The store snapshot after the miss counter's time-to-live ran out: the
/// counter key vanishes on its own, the address record stays.
pub open spec fn expired(s: KeyState) -> KeyState {
    KeyState { address: s.address, misses: None }
}

/// Decides what one failed probe does to the store, from the counter value
/// the store reported (zero when the counter key is absent).
pub fn process_missed_request(misses: u64, conf: &Config) -> (a: MissAction)
    requires
        conf.wf(),
    ensures
        a == miss_step(misses as int, *conf),
{
    if misses > conf.max_misses {
        MissAction::Cleanup
    } else {
        MissAction::Bump { value: misses + 1, ttl: conf.miss_ttl() }
    }
}

/// Runs one poll cycle for a tracked key over its store snapshot. `probed`
/// is the probe's outcome for the stored address, and is absent exactly when
/// no address is stored (no address, no probe). Returns the new snapshot and
/// what was done.
pub fn check(state: KeyState, probed: Option<ProbeOutcome>, conf: &Config) -> (r: (
    KeyState,
    CycleEvent,
))
    requires
        conf.wf(),
        probed is Some <==> state.address is Some,
    ensures
        r == step(state, probed, *conf),
        state.wf(*conf) ==> r.0.wf(*conf),
        probed == Some(ProbeOutcome::Reachable) ==> r.0 == state && r.1 == CycleEvent::StillUp,
        state.address is None ==> r.0 == state && r.1 == CycleEvent::Skipped,
{
    if state.address.is_none() {
        return (state, CycleEvent::Skipped);
    }
    match probed {
        Some(ProbeOutcome::Unreachable) => {
            let n: u64 = match state.misses {
                Some(v) => v,
                None => 0,
            };
            match process_missed_request(n, conf) {
                MissAction::Cleanup => (
                    KeyState { address: None, misses: None },
                    CycleEvent::CleanedUp,
                ),
                MissAction::Bump { value, ttl } => (
                    KeyState { address: state.address, misses: Some(value) },
                    CycleEvent::Bumped { value, ttl },
                ),
            }
        }
        _ => (state, CycleEvent::StillUp),
    }
}

/// Removes the miss counter from the snapshot, as the store's own expiry
/// does when the counter's time-to-live runs out.
pub fn expire_misses(state: KeyState) -> (r: KeyState)
    ensures
        r == expired(state),
{
    KeyState { address: state.address, misses: None }
}

} // verus!
