//! The hysteresis state machine: consumes one sample per poll and emits
//! at most one transition per poll. A qualifying sample (at or below
//! the threshold) activates the monitor, or refreshes its hold clock
//! while it is active; the monitor deactivates once the hold duration
//! has elapsed since the last qualifying sample.

use vstd::prelude::*;

verus! {

/// Whether the zone currently counts as occupied.
#[derive(Clone, Copy, Debug, PartialEq, Eq, Structural)]
pub enum MonitorState {
    Inactive,
    Active,
}

/// An edge event emitted by the state machine, at most one per poll.
#[derive(Clone, Copy, Debug, PartialEq, Eq, Structural)]
pub enum Transition {
    Activate,
    Deactivate,
}

/// The state threaded through the polling loop, together with the
/// configuration values that bound its decisions.
#[derive(Clone, Copy, Debug, PartialEq, Eq, Structural)]
pub struct Monitor {
    /// Current state; initially `Inactive`.
    pub state: MonitorState,
    /// When the zone last looked occupied, in milliseconds of the
    /// caller's monotone clock. Meaningful only while `Active`.
    pub active_since_ms: u64,
    /// A sample at or below this value counts as "occupied".
    pub threshold: u16,
    /// Minimum time without a qualifying sample before deactivating.
    pub hold_ms: u32,
}

/// A qualifying sample: a reading at or below the threshold,
/// interpreted as "occupied".
pub open spec fn qualifies(sample: u16, threshold: u16) -> bool {
    sample <= threshold
}

/// Wall-clock delta between a recorded instant and now; zero rather
/// than negative if the recorded instant lies ahead of `now`.
pub open spec fn elapsed_ms(since: u64, now: u64) -> int {
    if now >= since {
        now - since
    } else {
        0
    }
}

/// The hold clock after this poll's sample is taken into account: a
/// qualifying sample resets it to `now`, any other leaves it alone.
pub open spec fn refreshed_since(m: Monitor, sample: u16, now: u64) -> u64 {
    if qualifies(sample, m.threshold) {
        now
    } else {
        m.active_since_ms
    }
}

/// One transition of the state machine: the monitor after consuming
/// `sample` at time `now`, and the event it emits, if any.
///
/// From `Inactive`, a qualifying sample activates and emits `Activate`;
/// anything else changes nothing. From `Active`, a qualifying sample
/// first refreshes the hold clock; then, whatever the sample was, the
/// monitor deactivates and emits `Deactivate` exactly when the hold
/// duration has elapsed since the (refreshed) hold clock.
pub open spec fn spec_step(m: Monitor, sample: u16, now: u64) -> (Monitor, Option<Transition>) {
    match m.state {
        MonitorState::Inactive => {
            if qualifies(sample, m.threshold) {
                (
                    Monitor { state: MonitorState::Active, active_since_ms: now, ..m },
                    Some(Transition::Activate),
                )
            } else {
                (m, None)
            }
        },
        MonitorState::Active => {
            let since = refreshed_since(m, sample, now);
            if elapsed_ms(since, now) >= m.hold_ms {
                (
                    Monitor { state: MonitorState::Inactive, active_since_ms: since, ..m },
                    Some(Transition::Deactivate),
                )
            } else {
                (Monitor { state: MonitorState::Active, active_since_ms: since, ..m }, None)
            }
        },
    }
}

impl Monitor {
    /// A fresh monitor: inactive, with its decision bounds.
    pub fn new(threshold: u16, hold_ms: u32) -> (m: Monitor)
        ensures
            m.state is Inactive,
            m.active_since_ms == 0,
            m.threshold == threshold,
            m.hold_ms == hold_ms,
    {
        Monitor { state: MonitorState::Inactive, active_since_ms: 0, threshold, hold_ms }
    }

    /// Consumes one sample taken at `now_ms` and returns the transition
    /// to notify, if any. Behaves exactly as `spec_step` describes.
    pub fn step(&mut self, sample: u16, now_ms: u64) -> (t: Option<Transition>)
        ensures
            *final(self) == spec_step(*old(self), sample, now_ms).0,
            t == spec_step(*old(self), sample, now_ms).1,
    {
        match self.state {
            MonitorState::Inactive => {
                if sample <= self.threshold {
                    self.state = MonitorState::Active;
                    self.active_since_ms = now_ms;
                    Some(Transition::Activate)
                } else {
                    None
                }
            },
            MonitorState::Active => {
                if sample <= self.threshold {
                    self.active_since_ms = now_ms;
                }
                let elapsed: u64 = if now_ms >= self.active_since_ms {
                    now_ms - self.active_since_ms
                } else {
                    0
                };
                if elapsed >= self.hold_ms as u64 {
                    self.state = MonitorState::Inactive;
                    Some(Transition::Deactivate)
                } else {
                    None
                }
            },
        }
    }
}

/// While inactive, a qualifying sample moves the monitor to active,
/// records the sample time as the hold clock, and fires exactly the
/// activate transition; a non-qualifying sample changes nothing and
/// fires nothing.
pub proof fn lemma_inactive_step(m: Monitor, sample: u16, now: u64)
    requires
        m.state is Inactive,
    ensures
        qualifies(sample, m.threshold) ==> {
            &&& spec_step(m, sample, now).0.state is Active
            &&& spec_step(m, sample, now).0.active_since_ms == now
            &&& spec_step(m, sample, now).1 == Some(Transition::Activate)
        },
        !qualifies(sample, m.threshold) ==> spec_step(m, sample, now) == (
            m,
            Option::<Transition>::None,
        ),
{
}

/// While active and within the hold window — the time since the last
/// qualifying sample is still under the hold duration — the monitor
/// stays active and fires nothing, whatever the sample value.
pub proof fn lemma_hold_window_keeps_active(m: Monitor, sample: u16, now: u64)
    requires
        m.state is Active,
        elapsed_ms(m.active_since_ms, now) < m.hold_ms,
    ensures
        spec_step(m, sample, now).0.state is Active,
        spec_step(m, sample, now).1 is None,
{
}

/// Repeated qualifying samples while active never re-fire the activate
/// transition: only the inactive-to-active edge fires it.
pub proof fn lemma_active_never_refires(m: Monitor, sample: u16, now: u64)
    requires
        m.state is Active,
    ensures
        spec_step(m, sample, now).1 != Some(Transition::Activate),
{
}

/// While active, the monitor deactivates exactly when the time elapsed
/// since the last qualifying sample — this poll's, if it qualifies —
/// has reached the hold duration. The check is level-triggered: it is
/// evaluated anew on every poll, not only once.
pub proof fn lemma_deactivation_iff_hold_elapsed(m: Monitor, sample: u16, now: u64)
    requires
        m.state is Active,
    ensures
        spec_step(m, sample, now).1 == Some(Transition::Deactivate) <==> elapsed_ms(
            refreshed_since(m, sample, now),
            now,
        ) >= m.hold_ms,
        spec_step(m, sample, now).0.state is Inactive <==> elapsed_ms(
            refreshed_since(m, sample, now),
            now,
        ) >= m.hold_ms,
{
}

/// What the polling loop does after one sample attempt.
#[derive(Clone, Copy, Debug, PartialEq, Eq)]
pub enum PollOutcome {
    /// The sample protocol failed: the loop must terminate, with no
    /// further polls.
    Halt,
    /// A sample was consumed; the transition to notify, if any.
    Stepped(Option<Transition>),
}

/// One decision of the main loop: a failed sample attempt halts the
/// loop and leaves the monitor untouched; a sample steps the monitor.
pub fn handle_poll(monitor: &mut Monitor, sample: Option<u16>, now_ms: u64) -> (r: PollOutcome)
    ensures
        sample is None ==> r == PollOutcome::Halt && *final(monitor) == *old(monitor),
        sample matches Some(v) ==> {
            &&& *final(monitor) == spec_step(*old(monitor), v, now_ms).0
            &&& r == PollOutcome::Stepped(spec_step(*old(monitor), v, now_ms).1)
        },
{
    match sample {
        None => PollOutcome::Halt,
        Some(v) => {
            let t = monitor.step(v, now_ms);
            PollOutcome::Stepped(t)
        },
    }
}

} // verus!
