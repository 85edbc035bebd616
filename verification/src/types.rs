//! Shared state of the alarm engine: the live application state, the
//! persisted settings, the scheduler's event alphabet, and the manager of
//! the single outstanding timer task.

use vstd::prelude::*;

use crate::codec::hour_to_wire;
use crate::codec::minute_to_wire;
use crate::codec::spec_clamp;

verus! {

/// Live application state. One process-wide instance is shared by the
/// scheduler and the command layer; callers guard it with a lock and keep
/// every critical section short.
#[derive(Clone, Copy, Debug)]
pub struct AppState {
    /// Configured wake hour, always in `[0, 23]`.
    pub alarm_set_hour: i32,
    /// Configured wake minute, always in `[0, 59]`.
    pub alarm_set_minute: i32,
    /// Whether the alarm is enabled.
    pub alarm_is_on: bool,
    /// Raw state of the remote snooze button, as last received.
    pub snooze_pressed: bool,
    /// Raw state of the remote stop button, as last received.
    pub stop_pressed: bool,
    /// True between a fire and the following stop or phase end.
    pub is_ringing: bool,
    /// Snooze cycles consumed since the last fresh fire.
    pub snooze_count: u32,
    /// Allowed snooze cycles, in `[1, 20]`.
    pub max_snoozes: u32,
    /// Length of a ring phase in minutes, in `[1, 60]`.
    pub ringing_duration_minutes: u32,
    /// Length of a snooze wait in minutes, in `[1, 30]`.
    pub snooze_duration_minutes: u32,
    /// Diagnostics: when the last inbound parameter arrived, epoch milliseconds.
    pub last_osc_received: Option<i64>,
    /// Diagnostics: when the last outbound parameter left, epoch milliseconds.
    pub last_osc_sent: Option<i64>,
}

impl AppState {
    /// Well-formedness: every field sits in its documented range, and at
    /// rest the consumed snooze cycles never exceed the allowance.
    pub open spec fn wf(self) -> bool {
        &&& 0 <= self.alarm_set_hour <= 23
        &&& 0 <= self.alarm_set_minute <= 59
        &&& self.snooze_count <= self.max_snoozes
        &&& 1 <= self.max_snoozes <= 20
        &&& 1 <= self.ringing_duration_minutes <= 60
        &&& 1 <= self.snooze_duration_minutes <= 30
    }

    /// Copy the persisted settings into the live state, resetting the
    /// snooze progress, as done once at startup.
    pub fn apply_settings(&mut self, settings: &AlarmSettings)
        requires
            settings.wf(),
        ensures
            final(self).alarm_set_hour == settings.alarm_hour,
            final(self).alarm_set_minute == settings.alarm_minute,
            final(self).alarm_is_on == settings.alarm_is_on,
            final(self).snooze_count == 0,
            final(self).max_snoozes == settings.max_snoozes,
            final(self).ringing_duration_minutes == settings.ringing_duration_minutes,
            final(self).snooze_duration_minutes == settings.snooze_duration_minutes,
            final(self).snooze_pressed == old(self).snooze_pressed,
            final(self).stop_pressed == old(self).stop_pressed,
            final(self).is_ringing == old(self).is_ringing,
            final(self).last_osc_received == old(self).last_osc_received,
            final(self).last_osc_sent == old(self).last_osc_sent,
            final(self).wf(),
    {
        self.alarm_set_hour = settings.alarm_hour;
        self.alarm_set_minute = settings.alarm_minute;
        self.alarm_is_on = settings.alarm_is_on;
        self.snooze_count = 0;
        self.max_snoozes = settings.max_snoozes;
        self.ringing_duration_minutes = settings.ringing_duration_minutes;
        self.snooze_duration_minutes = settings.snooze_duration_minutes;
    }
}

impl Default for AppState {
    /// A fresh, disarmed state with the stock phase lengths.
    fn default() -> (r: AppState)
        ensures
            r.alarm_set_hour == 0,
            r.alarm_set_minute == 0,
            !r.alarm_is_on,
            !r.snooze_pressed,
            !r.stop_pressed,
            !r.is_ringing,
            r.snooze_count == 0,
            r.max_snoozes == 5,
            r.ringing_duration_minutes == 15,
            r.snooze_duration_minutes == 9,
            r.last_osc_received is None,
            r.last_osc_sent is None,
            r.wf(),
    {
        AppState {
            alarm_set_hour: 0,
            alarm_set_minute: 0,
            alarm_is_on: false,
            snooze_pressed: false,
            stop_pressed: false,
            is_ringing: false,
            snooze_count: 0,
            max_snoozes: 5,
            ringing_duration_minutes: 15,
            snooze_duration_minutes: 9,
            last_osc_received: None,
            last_osc_sent: None,
        }
    }
}

/// The persisted alarm configuration.
#[derive(Clone, Copy, Debug)]
pub struct AlarmSettings {
    pub alarm_hour: i32,
    pub alarm_minute: i32,
    pub alarm_is_on: bool,
    pub max_snoozes: u32,
    pub ringing_duration_minutes: u32,
    pub snooze_duration_minutes: u32,
}

impl AlarmSettings {
    /// Well-formedness: every field sits in its validated range.
    pub open spec fn wf(self) -> bool {
        &&& 0 <= self.alarm_hour <= 23
        &&& 0 <= self.alarm_minute <= 59
        &&& 1 <= self.max_snoozes <= 20
        &&& 1 <= self.ringing_duration_minutes <= 60
        &&& 1 <= self.snooze_duration_minutes <= 30
    }

    /// Replace the wake time and the armed flag, clamping the time into
    /// its valid ranges; the timer durations stay as they were.
    pub fn update_alarm_config(&mut self, hour: i32, minute: i32, is_on: bool)
        ensures
            final(self).alarm_hour == spec_clamp(hour as int, 0, 23),
            final(self).alarm_minute == spec_clamp(minute as int, 0, 59),
            final(self).alarm_is_on == is_on,
            final(self).max_snoozes == old(self).max_snoozes,
            final(self).ringing_duration_minutes == old(self).ringing_duration_minutes,
            final(self).snooze_duration_minutes == old(self).snooze_duration_minutes,
    {
        self.alarm_hour = hour_to_wire(hour);
        self.alarm_minute = minute_to_wire(minute);
        self.alarm_is_on = is_on;
    }

    /// Replace the timer durations, clamping each into its validated
    /// range; the wake time and the armed flag stay as they were.
    pub fn update_timer_config(&mut self, max_snoozes: u32, ringing_minutes: u32, snooze_minutes: u32)
        ensures
            final(self).max_snoozes == spec_clamp(max_snoozes as int, 1, 20),
            final(self).ringing_duration_minutes == spec_clamp(ringing_minutes as int, 1, 60),
            final(self).snooze_duration_minutes == spec_clamp(snooze_minutes as int, 1, 30),
            final(self).alarm_hour == old(self).alarm_hour,
            final(self).alarm_minute == old(self).alarm_minute,
            final(self).alarm_is_on == old(self).alarm_is_on,
    {
        self.max_snoozes = if max_snoozes < 1 {
            1
        } else if max_snoozes > 20 {
            20
        } else {
            max_snoozes
        };
        self.ringing_duration_minutes = if ringing_minutes < 1 {
            1
        } else if ringing_minutes > 60 {
            60
        } else {
            ringing_minutes
        };
        self.snooze_duration_minutes = if snooze_minutes < 1 {
            1
        } else if snooze_minutes > 30 {
            30
        } else {
            snooze_minutes
        };
    }

    /// Clamp every field into its validated range, establishing
    /// well-formedness whatever a loaded settings file held.
    pub fn sanitize(&mut self)
        ensures
            final(self).alarm_hour == spec_clamp(old(self).alarm_hour as int, 0, 23),
            final(self).alarm_minute == spec_clamp(old(self).alarm_minute as int, 0, 59),
            final(self).alarm_is_on == old(self).alarm_is_on,
            final(self).max_snoozes == spec_clamp(old(self).max_snoozes as int, 1, 20),
            final(self).ringing_duration_minutes == spec_clamp(
                old(self).ringing_duration_minutes as int,
                1,
                60,
            ),
            final(self).snooze_duration_minutes == spec_clamp(
                old(self).snooze_duration_minutes as int,
                1,
                30,
            ),
            final(self).wf(),
    {
        let hour = self.alarm_hour;
        let minute = self.alarm_minute;
        let is_on = self.alarm_is_on;
        self.update_alarm_config(hour, minute, is_on);
        let max_snoozes = self.max_snoozes;
        let ringing = self.ringing_duration_minutes;
        let snooze = self.snooze_duration_minutes;
        self.update_timer_config(max_snoozes, ringing, snooze);
    }
}

impl Default for AlarmSettings {
    /// The stock configuration used when no settings file exists.
    fn default() -> (r: AlarmSettings)
        ensures
            r.alarm_hour == 7,
            r.alarm_minute == 0,
            !r.alarm_is_on,
            r.max_snoozes == 5,
            r.ringing_duration_minutes == 15,
            r.snooze_duration_minutes == 9,
            r.wf(),
    {
        AlarmSettings {
            alarm_hour: 7,
            alarm_minute: 0,
            alarm_is_on: false,
            max_snoozes: 5,
            ringing_duration_minutes: 15,
            snooze_duration_minutes: 9,
        }
    }
}

/// Declares tokio::task::JoinHandle, the opaque handle of one spawned
/// task, so it can be held and carried through.
#[verifier::external_type_specification]
#[verifier::external_body]
#[verifier::reject_recursive_types(T)]
pub struct ExJoinHandle<T>(tokio::task::JoinHandle<T>);

/// Declares tokio::task::JoinError, which joining a handle can yield;
/// nothing here reads it.
#[verifier::external_type_specification]
#[verifier::external_body]
pub struct ExJoinError(tokio::task::JoinError);

/// Relies on tokio::task::JoinHandle::abort: requests that the task not
/// run; a task that already started may still finish its current run.
#[verifier::external_body]
fn abort_task(handle: &tokio::task::JoinHandle<()>) {
    handle.abort();
}

/// Owner of the single outstanding delayed action. The well-formedness
/// invariant ties the ghost tallies of installed and cancelled handles to
/// the live slot, so at most one timer is ever logically live, and every
/// replacement cancels the previous handle before the new one is stored.
pub struct TimerManager {
    /// The one live handle, if a timer is outstanding.
    pub active_timer_handle: Option<tokio::task::JoinHandle<()>>,
    /// Ghost tally of every handle ever installed.
    pub installed: Ghost<nat>,
    /// Ghost tally of every handle cancelled again.
    pub cancelled: Ghost<nat>,
}

impl TimerManager {
    /// How many timers are live now: one or none.
    pub open spec fn live(self) -> nat {
        if self.active_timer_handle is Some {
            1nat
        } else {
            0nat
        }
    }

    /// Every installed handle was cancelled again, except the one that may
    /// be live now. Together with `live() <= 1` by construction, this is
    /// the no-overlap guarantee: no two handles are ever live at once.
    pub open spec fn wf(self) -> bool {
        self.installed@ == self.cancelled@ + self.live()
    }

    pub fn new() -> (r: TimerManager)
        ensures
            r.active_timer_handle is None,
            r.installed@ == 0,
            r.cancelled@ == 0,
            r.wf(),
    {
        TimerManager { active_timer_handle: None, installed: Ghost(0nat), cancelled: Ghost(0nat) }
    }

    /// Cancel the outstanding timer, if any, and empty the slot.
    pub fn cancel_active_timer(&mut self)
        requires
            old(self).wf(),
        ensures
            final(self).active_timer_handle is None,
            final(self).installed@ == old(self).installed@,
            final(self).cancelled@ == old(self).cancelled@ + old(self).live(),
            final(self).wf(),
    {
        let taken = self.active_timer_handle.take();
        match taken {
            Some(handle) => {
                abort_task(&handle);
                self.cancelled = Ghost(self.cancelled@ + 1);
            },
            None => {},
        }
    }

    /// Install a replacement timer. The previous handle, if any, is
    /// cancelled first, before the new one is stored: never the other way
    /// round, so the two are never live together.
    pub fn set_active_timer(&mut self, handle: tokio::task::JoinHandle<()>)
        requires
            old(self).wf(),
        ensures
            final(self).active_timer_handle == Some(handle),
            final(self).installed@ == old(self).installed@ + 1,
            final(self).cancelled@ == old(self).cancelled@ + old(self).live(),
            final(self).wf(),
    {
        self.cancel_active_timer();
        self.active_timer_handle = Some(handle);
        self.installed = Ghost(self.installed@ + 1);
    }
}

/// Replacing the active timer keeps the balance of handles: exactly as
/// many handles were cancelled as were superseded, and exactly one is
/// live after any run of installs, so no stale timer survives a
/// replacement.
pub proof fn lemma_install_cancels_exactly_one(before: TimerManager, after: TimerManager)
    requires
        before.wf(),
        after.wf(),
        before.active_timer_handle is Some,
        after.active_timer_handle is Some,
        after.installed@ == before.installed@ + 1,
    ensures
        after.cancelled@ == before.cancelled@ + 1,
{
}

/// The scheduler's event alphabet. Each value is consumed by exactly one
/// call into the scheduler and never retained.
#[derive(Clone, Copy, PartialEq, Eq, Structural, Debug)]
pub enum TimerEvent {
    /// The wake timer elapsed, or a snooze wait ended: the alarm fires.
    AlarmFire,
    /// The snooze button was accepted while ringing.
    SnoozeEnd,
    /// The ring phase ran its full length without a button press.
    RingingEnd,
    /// The stop button was accepted while ringing.
    Stop,
}

} // verus!
