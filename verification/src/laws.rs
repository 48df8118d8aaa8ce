//! The lifecycle laws of the timer state machine, each proved once and for
//! all over the spec-level transitions. Every executable transition promises
//! `*final(self) == old(self).spec_...(now_ms)`, so each law carries over to
//! the executable interface at every clock reading.

use vstd::prelude::*;

use crate::timer::Timer;

verus! {

/// Starting a timer and querying at the same instant yields the full
/// configured target: `hours * 3600 + minutes * 60 + seconds`, in
/// milliseconds.
pub proof fn lemma_start_remaining(t: Timer, now_ms: u64)
    requires
        t.restart_count < u64::MAX,
    ensures
        t.spec_start(now_ms).spec_rest(now_ms) == Some((t.spec_target_secs() * 1000) as u64),
{
    t.spec_start(now_ms).lemma_remaining_bounds(now_ms);
}

/// Pausing freezes the remaining time: after `pause` at one instant, the
/// query returns the value it had at the pause instant, however much
/// wall-clock time passes afterwards.
pub proof fn lemma_pause_freezes(t: Timer, now_ms: u64, later_ms: u64)
    requires
        t.started_ms is Some,
        t.pause_elapsed_ms is None,
    ensures
        t.spec_pause(now_ms).spec_rest(later_ms) == t.spec_rest(now_ms),
{
}

/// Unpausing resumes the countdown from exactly the frozen value: right
/// after `unpause`, the query returns what the paused timer showed. The one
/// reading left out is a clock standing before the frozen elapsed time
/// itself (a clock that ran backwards past the pause span), where the
/// clamped virtual start point shortens the remaining time instead.
pub proof fn lemma_unpause_resumes(t: Timer, now_ms: u64, any_ms: u64)
    requires
        t.started_ms is Some,
        t.pause_elapsed_ms matches Some(p) && p <= now_ms,
    ensures
        t.spec_unpause(now_ms).spec_rest(now_ms) == t.spec_rest(any_ms),
{
}

/// After `reset` the timer is idle — the query returns `None` at every
/// clock reading — and the start count is cleared, whatever came before.
pub proof fn lemma_reset_idle(t: Timer, now_ms: u64)
    ensures
        t.spec_reset().spec_rest(now_ms) is None,
        t.spec_reset().restart_count == 0,
{
}

/// Pausing twice, at any two instants, is the same as pausing once: the
/// second pause finds the timer already paused and leaves it alone.
pub proof fn lemma_pause_idempotent(t: Timer, now1_ms: u64, now2_ms: u64)
    ensures
        t.spec_pause(now1_ms).spec_pause(now2_ms) == t.spec_pause(now1_ms),
{
}

/// Unpausing twice, at any two instants, is the same as unpausing once.
pub proof fn lemma_unpause_idempotent(t: Timer, now1_ms: u64, now2_ms: u64)
    ensures
        t.spec_unpause(now1_ms).spec_unpause(now2_ms) == t.spec_unpause(now1_ms),
{
}

/// Resetting twice is the same as resetting once.
pub proof fn lemma_reset_idempotent(t: Timer)
    ensures
        t.spec_reset().spec_reset() == t.spec_reset(),
{
}

/// The remaining time is never negative, and it is exactly zero precisely
/// when the elapsed time has reached the target.
pub proof fn lemma_remaining_floor(t: Timer, now_ms: u64)
    ensures
        t.spec_remaining_ms(now_ms) >= 0,
        t.started_ms is Some ==> ((t.spec_rest(now_ms) == Some(0u64)) <==> t.spec_elapsed_ms(
            now_ms,
        ) >= t.spec_target_secs() * 1000),
{
    t.lemma_remaining_bounds(now_ms);
}

/// As the clock advances the remaining time never grows; frozen while
/// paused, shrinking while running.
pub proof fn lemma_remaining_monotone(t: Timer, now1_ms: u64, now2_ms: u64)
    requires
        now1_ms <= now2_ms,
    ensures
        t.spec_remaining_ms(now2_ms) <= t.spec_remaining_ms(now1_ms),
{
}

/// Once expired, a timer stays expired at every later reading, until a
/// transition re-arms or clears it.
pub proof fn lemma_expired_stays_expired(t: Timer, now1_ms: u64, now2_ms: u64)
    requires
        now1_ms <= now2_ms,
        t.spec_expired(now1_ms),
    ensures
        t.spec_expired(now2_ms),
{
    lemma_remaining_monotone(t, now1_ms, now2_ms);
    t.lemma_remaining_bounds(now2_ms);
}

/// One expiry tick on an expired auto-restart timer re-arms it: the start
/// count rises by exactly one and the remaining time is the full target
/// again.
pub proof fn lemma_auto_restart(t: Timer, now_ms: u64)
    requires
        t.restart_count < u64::MAX,
        t.auto_restart,
        t.spec_expired(now_ms),
    ensures
        t.spec_tick(now_ms).restart_count == t.restart_count + 1,
        t.spec_tick(now_ms).spec_rest(now_ms) == Some((t.spec_target_secs() * 1000) as u64),
{
    lemma_start_remaining(t, now_ms);
}

/// Every transition preserves the shape invariant: a paused timer always
/// belongs to a run. A fresh timer starts idle, so the invariant holds from
/// creation on.
pub proof fn lemma_transitions_preserve_wf(t: Timer, now_ms: u64)
    requires
        t.wf(),
    ensures
        t.spec_start(now_ms).wf(),
        t.spec_pause(now_ms).wf(),
        t.spec_unpause(now_ms).wf(),
        t.spec_reset().wf(),
        t.spec_tick(now_ms).wf(),
{
}

/// A tick on a timer that does not fire — not expired, or not set to
/// auto-restart — leaves it exactly as it is; in particular an expired
/// timer without auto-restart stays frozen at zero and never re-alerts.
pub proof fn lemma_tick_no_fire(t: Timer, now_ms: u64)
    requires
        !t.spec_fires(now_ms),
    ensures
        t.spec_tick(now_ms) == t,
{
}

} // verus!
