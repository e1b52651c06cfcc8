use vstd::prelude::*;
use crate::config::Config;
use crate::tracker::{CycleEvent, KeyState, MissAction, ProbeOutcome, expired, miss_step, step};

verus! {

/// The probe outcome actually handed to a cycle: the probe only runs when an
/// address is stored.
pub open spec fn probed_for(s: KeyState, o: ProbeOutcome) -> Option<ProbeOutcome> {
    if s.address is Some {
        Some(o)
    } else {
        None
    }
}

/// One poll cycle, total over any snapshot: the outcome `o` is what the
/// probe would have reported, and is ignored when no address is stored.
pub open spec fn cycle(s: KeyState, o: ProbeOutcome, conf: Config) -> (KeyState, CycleEvent) {
    step(s, probed_for(s, o), conf)
}

/// The snapshot left after running one poll cycle per outcome, in order.
pub open spec fn run(s: KeyState, outs: Seq<ProbeOutcome>, conf: Config) -> KeyState
    decreases outs.len(),
{
    if outs.len() == 0 {
        s
    } else {
        run(cycle(s, outs[0], conf).0, outs.drop_first(), conf)
    }
}

/// How many of the cycles run over `outs` fired a cleanup.
pub open spec fn cleanup_count(s: KeyState, outs: Seq<ProbeOutcome>, conf: Config) -> nat
    decreases outs.len(),
{
    if outs.len() == 0 {
        0
    } else {
        (if cycle(s, outs[0], conf).1 is CleanedUp {
            1nat
        } else {
            0nat
        }) + cleanup_count(cycle(s, outs[0], conf).0, outs.drop_first(), conf)
    }
}

/// True when every outcome in the sequence is an unreachable probe.
pub open spec fn all_unreachable(outs: Seq<ProbeOutcome>) -> bool {
    forall|i: int| 0 <= i < outs.len() ==> outs[i] == ProbeOutcome::Unreachable
}

/// One cycle keeps the counter bound: from a snapshot whose counter is at
/// most one past the threshold, it stays so.
proof fn lemma_cycle_preserves_wf(s: KeyState, o: ProbeOutcome, conf: Config)
    requires
        conf.wf(),
        s.wf(conf),
    ensures
        cycle(s, o, conf).0.wf(conf),
{
}

/// Running any outcome sequence keeps the counter bound.
proof fn lemma_run_preserves_wf(s: KeyState, outs: Seq<ProbeOutcome>, conf: Config)
    requires
        conf.wf(),
        s.wf(conf),
    ensures
        run(s, outs, conf).wf(conf),
    decreases outs.len(),
{
    if outs.len() > 0 {
        lemma_cycle_preserves_wf(s, outs[0], conf);
        lemma_run_preserves_wf(cycle(s, outs[0], conf).0, outs.drop_first(), conf);
    }
}

/// Law: over any sequence of probe outcomes, the stored miss counter never
/// exceeds `max_misses + 1` — at every point of the run, not only at its
/// end. The strict threshold comparison lets the counter reach exactly one
/// past the threshold; the cycle after that cleans up instead of counting
/// further.
pub proof fn lemma_counter_never_exceeds(s: KeyState, outs: Seq<ProbeOutcome>, conf: Config)
    requires
        conf.wf(),
        s.wf(conf),
    ensures
        forall|i: int|
            0 <= i <= outs.len() ==> #[trigger] run(s, outs.take(i), conf).counter()
                <= conf.max_misses + 1,
{
    assert forall|i: int| 0 <= i <= outs.len() implies #[trigger] run(s, outs.take(i), conf)
        .counter() <= conf.max_misses + 1 by {
        lemma_run_preserves_wf(s, outs.take(i), conf);
    }
}

/// Law: a failed probe fires the cleanup when, and only when, the stored
/// counter already stands strictly past the threshold — so a streak of
/// misses is cut short one cycle after the counter reached
/// `max_misses + 1`, never earlier.
pub proof fn lemma_cleanup_exactly_past_threshold(s: KeyState, conf: Config)
    requires
        conf.wf(),
        s.address is Some,
    ensures
        cycle(s, ProbeOutcome::Unreachable, conf).1 is CleanedUp <==> s.counter()
            > conf.max_misses,
{
}

/// Law: a cycle whose probe succeeds leaves the snapshot — the counter's
/// stored value included — exactly as it was; nothing is deleted or reset.
pub proof fn lemma_reachable_leaves_counter(s: KeyState, conf: Config)
    ensures
        cycle(s, ProbeOutcome::Reachable, conf).0 == s,
        !(cycle(s, ProbeOutcome::Reachable, conf).1 is Bumped),
        !(cycle(s, ProbeOutcome::Reachable, conf).1 is CleanedUp),
{
}

/// Law: once the store's expiry has removed the miss counter, the next
/// failed probe restarts the count at one — never at the pre-expiry value.
pub proof fn lemma_expiry_restarts_count(s: KeyState, conf: Config)
    requires
        conf.wf(),
        s.address is Some,
    ensures
        cycle(expired(s), ProbeOutcome::Unreachable, conf).0.misses == Some(1u64),
        cycle(expired(s), ProbeOutcome::Unreachable, conf).1 == (CycleEvent::Bumped {
            value: 1u64,
            ttl: conf.miss_ttl_spec() as u64,
        }),
{
}

/// Splitting a run: running `a + b` is running `a`, then `b` from where `a`
/// left off, and the cleanups of the whole are those of the parts.
proof fn lemma_run_append(s: KeyState, a: Seq<ProbeOutcome>, b: Seq<ProbeOutcome>, conf: Config)
    ensures
        run(s, a + b, conf) == run(run(s, a, conf), b, conf),
        cleanup_count(s, a + b, conf) == cleanup_count(s, a, conf) + cleanup_count(
            run(s, a, conf),
            b,
            conf,
        ),
    decreases a.len(),
{
    if a.len() == 0 {
        assert(a + b =~= b);
    } else {
        let s1 = cycle(s, a[0], conf).0;
        assert((a + b).drop_first() =~= a.drop_first() + b);
        lemma_run_append(s1, a.drop_first(), b, conf);
    }
}

/// A streak of failed probes short enough to stay at or under one past the
/// threshold: each cycle bumps the counter by exactly one, the address
/// record stays, and no cleanup fires.
proof fn lemma_unreachable_streak(s: KeyState, outs: Seq<ProbeOutcome>, conf: Config)
    requires
        conf.wf(),
        s.address is Some,
        all_unreachable(outs),
        s.counter() + outs.len() <= conf.max_misses + 1,
        s.counter() >= 0,
    ensures
        run(s, outs, conf).address == s.address,
        run(s, outs, conf).counter() == s.counter() + outs.len(),
        outs.len() > 0 ==> run(s, outs, conf).misses == Some(
            (s.counter() + outs.len()) as u64,
        ),
        cleanup_count(s, outs, conf) == 0,
    decreases outs.len(),
{
    if outs.len() > 0 {
        let s1 = cycle(s, outs[0], conf).0;
        assert(miss_step(s.counter(), conf) == (MissAction::Bump {
            value: (s.counter() + 1) as u64,
            ttl: conf.miss_ttl_spec() as u64,
        }));
        assert(all_unreachable(outs.drop_first()));
        lemma_unreachable_streak(s1, outs.drop_first(), conf);
    }
}

/// Law: sustained absence fires exactly one cleanup. From a snapshot with an
/// address on record and no counter stored, a streak of `max_misses + 2`
/// consecutive failed probes bumps the counter up to `max_misses + 1` and
/// then, on the final cycle, fires exactly one cleanup, after which both
/// store keys are absent.
pub proof fn lemma_sustained_absence_cleans_up(
    s: KeyState,
    outs: Seq<ProbeOutcome>,
    conf: Config,
)
    requires
        conf.wf(),
        s.address is Some,
        s.misses is None,
        all_unreachable(outs),
        outs.len() == conf.max_misses + 2,
    ensures
        cleanup_count(s, outs, conf) == 1,
        run(s, outs, conf).address is None,
        run(s, outs, conf).misses is None,
{
    let k = conf.max_misses + 1;
    let a = outs.take(k as int);
    let b = outs.skip(k as int);
    assert(outs =~= a + b);
    lemma_run_append(s, a, b, conf);
    assert(all_unreachable(a));
    lemma_unreachable_streak(s, a, conf);
    let t = run(s, a, conf);
    assert(t.counter() == k);
    assert(b.len() == 1);
    assert(b[0] == ProbeOutcome::Unreachable);
    assert(miss_step(t.counter(), conf) == MissAction::Cleanup);
    let t1 = cycle(t, b[0], conf).0;
    assert(t1.address is None && t1.misses is None);
    assert(b.drop_first().len() == 0);
    assert(run(t1, b.drop_first(), conf) == t1);
    assert(run(t, b, conf) == t1);
    assert(cleanup_count(t1, b.drop_first(), conf) == 0);
    assert(cleanup_count(t, b, conf) == 1);
}

} // verus!
