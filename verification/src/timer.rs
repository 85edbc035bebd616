//! The alarm scheduler: wake-time computation and the ring, snooze,
//! re-ring cycle, written as an explicit state machine.
//!
//! Every transition takes the current state and one event and yields the
//! new state together with an [`EventOutcome`]: the firing flag to
//! announce to the peer, and the one timer to arm next. The caller
//! performs those effects outside the lock; a timer's elapse comes back
//! as the next event. Cancelling the previous timer always happens
//! before a replacement can be installed, inside the transition itself.

use vstd::prelude::*;

use crate::types::{AppState, TimerEvent, TimerManager};

verus! {

/// Seconds from midnight of the configured wake time.
pub open spec fn spec_target_seconds(hour: int, minute: int) -> int {
    hour * 3600 + minute * 60
}

/// Seconds to wait from `now` until the wake time next comes round: the
/// distance to today's target if it is still ahead, else to tomorrow's.
/// A target equal to `now` counts as already past and is pushed a full
/// day out, so the delay is never zero and two identical firings are at
/// least a day apart.
pub open spec fn spec_wake_delay(now: int, target: int) -> int {
    if target > now {
        target - now
    } else {
        target + 86400 - now
    }
}

/// Compute the delay until the configured wake time next comes round.
pub fn next_wake_delay_seconds(now_secs: u32, hour: i32, minute: i32) -> (r: u64)
    requires
        now_secs < 86400,
        0 <= hour <= 23,
        0 <= minute <= 59,
    ensures
        r == spec_wake_delay(now_secs as int, spec_target_seconds(hour as int, minute as int)),
        1 <= r <= 86400,
{
    let target: u32 = (hour as u32) * 3600 + (minute as u32) * 60;
    if target > now_secs {
        (target - now_secs) as u64
    } else {
        ((target + 86400) - now_secs) as u64
    }
}

/// A timer the caller must arm after a transition: the one outstanding
/// delayed action, with its delay and what its elapse means.
#[derive(Clone, Copy, PartialEq, Eq, Structural, Debug)]
pub enum PlannedTimer {
    /// Wait until the wake time; on elapse reset the snooze progress and
    /// feed [`TimerEvent::AlarmFire`] back in.
    Wake { delay_seconds: u64 },
    /// Let the ring phase run; on elapse feed [`TimerEvent::RingingEnd`]
    /// back in.
    Ring { delay_seconds: u64 },
    /// Wait out a snooze; on elapse feed [`TimerEvent::AlarmFire`] back
    /// in without touching the snooze progress.
    Snooze { delay_seconds: u64 },
}

/// What the caller must perform after a transition, outside the lock.
pub struct EventOutcome {
    /// Announce this value of the firing flag to the peer, if present.
    pub fire_signal: Option<bool>,
    /// Arm this timer as the one outstanding delayed action, if present.
    pub arm: Option<PlannedTimer>,
}

/// The ring-phase timer a fresh fire arms.
pub open spec fn spec_ring_timer(s: AppState) -> PlannedTimer {
    PlannedTimer::Ring { delay_seconds: (s.ringing_duration_minutes * 60) as u64 }
}

/// The snooze-wait timer a tolerated phase end arms.
pub open spec fn spec_snooze_timer(s: AppState) -> PlannedTimer {
    PlannedTimer::Snooze { delay_seconds: (s.snooze_duration_minutes * 60) as u64 }
}

/// The wake timer a stop or an exhausted snooze allowance arms.
pub open spec fn spec_wake_timer(s: AppState, now: int) -> PlannedTimer {
    PlannedTimer::Wake {
        delay_seconds: spec_wake_delay(
            now,
            spec_target_seconds(s.alarm_set_hour as int, s.alarm_set_minute as int),
        ) as u64,
    }
}

/// State after the alarm fires: it rings; nothing else moves.
pub open spec fn spec_after_fire(s: AppState) -> AppState {
    AppState { is_ringing: true, ..s }
}

/// Whether one more snooze would overrun the allowance.
pub open spec fn spec_snooze_exhausted(s: AppState) -> bool {
    s.snooze_count + 1 > s.max_snoozes
}

/// State after a ring phase ends or a snooze press is accepted: the
/// ringing stops; the snooze progress advances, or resets once the
/// allowance is overrun.
pub open spec fn spec_after_phase_end(s: AppState) -> AppState {
    if spec_snooze_exhausted(s) {
        AppState { is_ringing: false, snooze_count: 0, ..s }
    } else {
        AppState { is_ringing: false, snooze_count: (s.snooze_count + 1) as u32, ..s }
    }
}

/// State after a stop is accepted: the ringing stops and the snooze
/// progress resets, whatever it was.
pub open spec fn spec_after_stop(s: AppState) -> AppState {
    AppState { is_ringing: false, snooze_count: 0, ..s }
}

/// Drive one event through the state machine, with the current local
/// time supplied as seconds from midnight.
///
/// The transition mutates the shared state, cancels the outstanding
/// timer wherever it is superseded, and returns what the caller must
/// perform: the firing flag to announce and the one timer to arm.
pub fn handle_timer_event_at(
    state: &mut AppState,
    timer_manager: &mut TimerManager,
    event: &TimerEvent,
    now_secs: u32,
) -> (out: EventOutcome)
    requires
        old(state).wf(),
        old(timer_manager).wf(),
        now_secs < 86400,
    ensures
        final(state).wf(),
        final(timer_manager).wf(),
        event is AlarmFire ==> {
            &&& *final(state) == spec_after_fire(*old(state))
            &&& out.fire_signal == Some(true)
            &&& out.arm == Some(spec_ring_timer(*old(state)))
            &&& *final(timer_manager) == *old(timer_manager)
        },
        (event is SnoozeEnd || event is RingingEnd) ==> {
            &&& *final(state) == spec_after_phase_end(*old(state))
            &&& out.fire_signal == Some(false)
            &&& !spec_snooze_exhausted(*old(state)) ==> out.arm == Some(
                spec_snooze_timer(*old(state)),
            )
            &&& spec_snooze_exhausted(*old(state)) && old(state).alarm_is_on ==> out.arm == Some(
                spec_wake_timer(*old(state), now_secs as int),
            )
            &&& spec_snooze_exhausted(*old(state)) && !old(state).alarm_is_on ==> out.arm is None
        },
        event is Stop ==> {
            &&& *final(state) == spec_after_stop(*old(state))
            &&& out.fire_signal == Some(false)
            &&& old(state).alarm_is_on ==> out.arm == Some(
                spec_wake_timer(*old(state), now_secs as int),
            )
            &&& !old(state).alarm_is_on ==> out.arm is None
        },
        (event is SnoozeEnd || event is RingingEnd || event is Stop) ==> {
            &&& final(timer_manager).active_timer_handle is None
            &&& final(timer_manager).installed@ == old(timer_manager).installed@
            &&& final(timer_manager).cancelled@ == old(timer_manager).cancelled@ + old(
                timer_manager,
            ).live()
        },
{
    match event {
        TimerEvent::AlarmFire => {
            state.is_ringing = true;
            let delay: u64 = (state.ringing_duration_minutes as u64) * 60;
            EventOutcome {
                fire_signal: Some(true),
                arm: Some(PlannedTimer::Ring { delay_seconds: delay }),
            }
        },
        TimerEvent::SnoozeEnd | TimerEvent::RingingEnd => {
            let new_count = state.snooze_count + 1;
            let should_stop = new_count > state.max_snoozes;
            state.is_ringing = false;
            if should_stop {
                state.snooze_count = 0;
            } else {
                state.snooze_count = new_count;
            }
            timer_manager.cancel_active_timer();
            let arm = if should_stop {
                if state.alarm_is_on {
                    let delay = next_wake_delay_seconds(
                        now_secs,
                        state.alarm_set_hour,
                        state.alarm_set_minute,
                    );
                    Some(PlannedTimer::Wake { delay_seconds: delay })
                } else {
                    None
                }
            } else {
                Some(
                    PlannedTimer::Snooze {
                        delay_seconds: (state.snooze_duration_minutes as u64) * 60,
                    },
                )
            };
            EventOutcome { fire_signal: Some(false), arm }
        },
        TimerEvent::Stop => {
            timer_manager.cancel_active_timer();
            state.is_ringing = false;
            state.snooze_count = 0;
            let arm = if state.alarm_is_on {
                let delay = next_wake_delay_seconds(
                    now_secs,
                    state.alarm_set_hour,
                    state.alarm_set_minute,
                );
                Some(PlannedTimer::Wake { delay_seconds: delay })
            } else {
                None
            };
            EventOutcome { fire_signal: Some(false), arm }
        },
    }
}

/// Cancel the outstanding timer and compute the delay until the next
/// wake, with the current local time supplied as seconds from midnight.
/// Returns no delay while the alarm is disarmed: nothing is to be armed
/// then, and the cancellation alone takes effect.
pub fn calculate_next_alarm_at(
    state: &AppState,
    timer_manager: &mut TimerManager,
    now_secs: u32,
) -> (r: Option<u64>)
    requires
        state.wf(),
        old(timer_manager).wf(),
        now_secs < 86400,
    ensures
        final(timer_manager).active_timer_handle is None,
        final(timer_manager).wf(),
        final(timer_manager).installed@ == old(timer_manager).installed@,
        final(timer_manager).cancelled@ == old(timer_manager).cancelled@ + old(
            timer_manager,
        ).live(),
        r is Some <==> state.alarm_is_on,
        state.alarm_is_on ==> r == Some(
            spec_wake_delay(
                now_secs as int,
                spec_target_seconds(state.alarm_set_hour as int, state.alarm_set_minute as int),
            ) as u64,
        ),
{
    timer_manager.cancel_active_timer();
    if state.alarm_is_on {
        Some(next_wake_delay_seconds(now_secs, state.alarm_set_hour, state.alarm_set_minute))
    } else {
        None
    }
}

/// Reset the snooze progress, as a wake timer's elapse does before the
/// fresh fire.
pub fn reset_snooze_progress(state: &mut AppState)
    requires
        old(state).wf(),
    ensures
        *final(state) == (AppState { snooze_count: 0, ..*old(state) }),
        final(state).wf(),
{
    state.snooze_count = 0;
}

/// Relies on chrono::Local::now and Timelike::num_seconds_from_midnight
/// for the wall clock: every time of day maps into 0 to 86399 seconds.
#[verifier::external_body]
fn local_seconds_of_day() -> (r: u32)
    ensures
        r < 86400,
{
    let now = chrono::Local::now();
    chrono::Timelike::num_seconds_from_midnight(&now)
}

/// Drive one event through the state machine at the wall clock's current
/// time of day.
///
/// The state change and the firing flag do not depend on the clock and
/// are pinned exactly; of a wake delay, which does, only its bound is
/// stated here. [`handle_timer_event_at`] pins the delay too.
pub fn handle_timer_event(
    state: &mut AppState,
    timer_manager: &mut TimerManager,
    event: &TimerEvent,
) -> (out: EventOutcome)
    requires
        old(state).wf(),
        old(timer_manager).wf(),
    ensures
        final(state).wf(),
        final(timer_manager).wf(),
        event is AlarmFire ==> {
            &&& *final(state) == spec_after_fire(*old(state))
            &&& out.fire_signal == Some(true)
            &&& out.arm == Some(spec_ring_timer(*old(state)))
            &&& *final(timer_manager) == *old(timer_manager)
        },
        (event is SnoozeEnd || event is RingingEnd) ==> {
            &&& *final(state) == spec_after_phase_end(*old(state))
            &&& out.fire_signal == Some(false)
            &&& !spec_snooze_exhausted(*old(state)) ==> out.arm == Some(
                spec_snooze_timer(*old(state)),
            )
            &&& spec_snooze_exhausted(*old(state)) && !old(state).alarm_is_on ==> out.arm is None
        },
        event is Stop ==> {
            &&& *final(state) == spec_after_stop(*old(state))
            &&& out.fire_signal == Some(false)
            &&& !old(state).alarm_is_on ==> out.arm is None
        },
        ((event is SnoozeEnd || event is RingingEnd) && spec_snooze_exhausted(*old(state))
            || event is Stop) && old(state).alarm_is_on ==> (out.arm matches Some(
            PlannedTimer::Wake { delay_seconds },
        ) && 1 <= delay_seconds <= 86400),
        (event is SnoozeEnd || event is RingingEnd || event is Stop) ==> {
            &&& final(timer_manager).active_timer_handle is None
            &&& final(timer_manager).installed@ == old(timer_manager).installed@
            &&& final(timer_manager).cancelled@ == old(timer_manager).cancelled@ + old(
                timer_manager,
            ).live()
        },
{
    let now_secs = local_seconds_of_day();
    handle_timer_event_at(state, timer_manager, event, now_secs)
}

/// Cancel the outstanding timer and compute the next wake delay at the
/// wall clock's current time of day. The delay's bound alone is stated
/// here; [`calculate_next_alarm_at`] pins its value.
pub fn calculate_next_alarm(state: &AppState, timer_manager: &mut TimerManager) -> (r: Option<
    u64,
>)
    requires
        state.wf(),
        old(timer_manager).wf(),
    ensures
        final(timer_manager).active_timer_handle is None,
        final(timer_manager).wf(),
        final(timer_manager).installed@ == old(timer_manager).installed@,
        final(timer_manager).cancelled@ == old(timer_manager).cancelled@ + old(
            timer_manager,
        ).live(),
        r is Some <==> state.alarm_is_on,
        r matches Some(delay) ==> 1 <= delay <= 86400,
{
    let now_secs = local_seconds_of_day();
    calculate_next_alarm_at(state, timer_manager, now_secs)
}

/// One full snooze cycle as seen from the resting side: the alarm
/// re-fires, then the ring phase ends or a snooze press is accepted.
pub open spec fn spec_snooze_cycle(s: AppState) -> AppState {
    spec_after_phase_end(spec_after_fire(s))
}

/// `n` consecutive snooze cycles.
pub open spec fn spec_snooze_cycles(s: AppState, n: nat) -> AppState
    decreases n,
{
    if n == 0 {
        s
    } else {
        spec_snooze_cycle(spec_snooze_cycles(s, (n - 1) as nat))
    }
}

/// While the allowance lasts, each tolerated cycle advances the snooze
/// progress by exactly one and leaves every other setting alone.
pub proof fn lemma_snooze_cycles_count(s: AppState, n: nat)
    requires
        s.wf(),
        s.snooze_count == 0,
        n <= s.max_snoozes,
    ensures
        spec_snooze_cycles(s, n) == (AppState {
            snooze_count: n as u32,
            is_ringing: if n == 0 {
                s.is_ringing
            } else {
                false
            },
            ..s
        }),
        spec_snooze_cycles(s, n).wf(),
    decreases n,
{
    if n > 0 {
        lemma_snooze_cycles_count(s, (n - 1) as nat);
    }
}

/// Once the allowance is exhausted, the next cycle's phase end resets
/// the snooze progress to zero and leaves the alarm silent: the worn
/// state decides for stopping rather than another snooze.
pub proof fn lemma_snooze_exhaustion(s: AppState)
    requires
        s.wf(),
        s.snooze_count == 0,
    ensures
        spec_snooze_exhausted(spec_after_fire(spec_snooze_cycles(s, s.max_snoozes as nat))),
        spec_snooze_cycles(s, (s.max_snoozes + 1) as nat).snooze_count == 0,
        !spec_snooze_cycles(s, (s.max_snoozes + 1) as nat).is_ringing,
{
    lemma_snooze_cycles_count(s, s.max_snoozes as nat);
    assert(spec_snooze_cycles(s, (s.max_snoozes + 1) as nat) == spec_snooze_cycle(
        spec_snooze_cycles(s, s.max_snoozes as nat),
    ));
}

} // verus!
