//! Valves, their automation mode, and the open or closed state that a valve resolves to.

use crate::error::Error;
use crate::schedule::{active_at, conflicts, without, Duration, Schedule};
use crate::time::{DateTime, TimeOfDay, Weekday};
use vstd::prelude::*;

verus! {

/// The number that identifies a valve.
pub type ValveNumber = u8;

/// Whether a valve is, or should be, open or closed.
#[derive(Debug, Clone, Copy, PartialEq, Eq, Structural)]
pub enum ValveStatus {
    Open,
    Close,
}

/// How a valve decides its state: held open, held closed, or following its schedule.
#[derive(Debug, Clone, Copy, PartialEq, Eq, Structural)]
pub enum AutomationStatus {
    ForceOpen,
    Scheduled,
    ForceClose,
}

/// A named valve with its automation mode and weekly schedule.
#[derive(Debug)]
pub struct Valve {
    pub name: String,
    pub valve_number: ValveNumber,
    pub automation_status: AutomationStatus,
    pub schedule: Schedule,
}

/// The state a valve in mode `mode` with schedule `schedule` resolves to on day `day` at
/// `time`.
pub open spec fn resolve(
    mode: AutomationStatus,
    schedule: Schedule,
    day: Weekday,
    time: TimeOfDay,
) -> ValveStatus {
    match mode {
        AutomationStatus::ForceOpen => ValveStatus::Open,
        AutomationStatus::ForceClose => ValveStatus::Close,
        AutomationStatus::Scheduled => if active_at(schedule.day_spec(day)@, time) {
            ValveStatus::Open
        } else {
            ValveStatus::Close
        },
    }
}

impl Valve {
    pub open spec fn wf(&self) -> bool {
        self.schedule.wf()
    }

    /// The state the valve resolves to on day `day` at `time`.
    pub open spec fn status_spec(self, day: Weekday, time: TimeOfDay) -> ValveStatus {
        resolve(self.automation_status, self.schedule, day, time)
    }

    /// A valve held closed, with no windows on any day.
    pub fn new(name: String, valve_number: ValveNumber) -> (r: Valve)
        ensures
            r.wf(),
            r.name == name,
            r.valve_number == valve_number,
            r.automation_status == AutomationStatus::ForceClose,
            forall|w: Weekday| (#[trigger] r.schedule.day_spec(w))@ == Seq::<
                Duration,
            >::empty(),
    {
        Valve {
            name,
            valve_number,
            automation_status: AutomationStatus::ForceClose,
            schedule: Schedule::empty(),
        }
    }

    pub fn schedule(&self) -> (r: &Schedule)
        ensures
            *r == self.schedule,
    {
        &self.schedule
    }

    /// The state the valve resolves to on day `day` at `time`.
    pub fn status_at(&self, day: Weekday, time: &TimeOfDay) -> (r: ValveStatus)
        ensures
            r == self.status_spec(day, *time),
    {
        match self.automation_status {
            AutomationStatus::ForceClose => ValveStatus::Close,
            AutomationStatus::ForceOpen => ValveStatus::Open,
            AutomationStatus::Scheduled => {
                let daily_schedule = self.schedule.day(&day);
                if daily_schedule.should_be_running(time) {
                    ValveStatus::Open
                } else {
                    ValveStatus::Close
                }
            },
        }
    }

    /// The state the valve resolves to at `current_time`.
    pub fn valve_status(&self, current_time: DateTime) -> (r: ValveStatus)
        ensures
            r == self.status_spec(current_time.weekday_spec(), current_time.time_spec()),
    {
        self.status_at(current_time.weekday(), &current_time.time())
    }

    /// Adds `duration` to the schedule of `day`, unless it overlaps a window already there.
    pub fn add_duration(&mut self, day: &Weekday, duration: Duration) -> (r: Result<(), Error>)
        requires
            old(self).wf(),
        ensures
            final(self).wf(),
            final(self).name == old(self).name,
            final(self).valve_number == old(self).valve_number,
            final(self).automation_status == old(self).automation_status,
            final(self).schedule.same_except(old(self).schedule, *day),
            r is Err <==> conflicts(old(self).schedule.day_spec(*day)@, duration),
            r matches Err(e) ==> e == Error::OverlappingDurations && final(self).schedule
                == old(self).schedule,
            r is Ok ==> final(self).schedule.day_spec(*day)@ == old(
                self,
            ).schedule.day_spec(*day)@.push(duration),
    {
        self.schedule.add_entry(day, duration)
    }

    /// Removes every window equal to `duration` from the schedule of `day`.
    pub fn remove_duration(&mut self, day: &Weekday, duration: Duration) -> (r: Result<(), Error>)
        requires
            old(self).wf(),
        ensures
            final(self).wf(),
            final(self).name == old(self).name,
            final(self).valve_number == old(self).valve_number,
            final(self).automation_status == old(self).automation_status,
            final(self).schedule.same_except(old(self).schedule, *day),
            r is Ok,
            final(self).schedule.day_spec(*day)@ == without(
                old(self).schedule.day_spec(*day)@,
                duration,
            ),
    {
        self.schedule.remove_entry(day, duration)
    }
}

} // verus!
