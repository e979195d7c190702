//! The requests that read or change the registry: each takes plain values and the registry,
//! and answers with a value or with the error that rejects the request.

use crate::error::Error;
use crate::registry::{has_valve, without_valve, ControllerConfig};
use crate::schedule::{conflicts, without, Duration, Schedule};
use crate::time::{DateTime, TimeOfDay, Weekday};
use crate::valve::{AutomationStatus, Valve, ValveNumber, ValveStatus};
use vstd::prelude::*;

verus! {

/// A request to create a valve.
#[derive(Debug)]
pub struct ValveParams {
    pub valve_number: ValveNumber,
    pub name: String,
}

/// A request naming one window of one weekday.
#[derive(Debug, Clone, Copy)]
pub struct TimetableParams {
    pub start_time: TimeOfDay,
    pub end_time: TimeOfDay,
    pub day: Weekday,
}

/// Position of the valve numbered `n` in `s`, where `s` holds one.
pub open spec fn position_of(s: Seq<Valve>, n: ValveNumber) -> int {
    choose|i: int| 0 <= i < s.len() && (#[trigger] s[i]).valve_number == n
}

/// Sets the automation mode of the valve numbered `valve_number`.
pub fn update_valve_status(
    valve_number: ValveNumber,
    config: &mut ControllerConfig,
    new_state: AutomationStatus,
) -> (r: Result<(), Error>)
    requires
        old(config).wf(),
    ensures
        final(config).wf(),
        final(config).address_spec() == old(config).address_spec(),
        r is Err <==> !has_valve(old(config)@, valve_number),
        r matches Err(e) ==> e == Error::InvalidValveNumber && *final(config) == *old(config),
        r is Ok ==> {
            let i = position_of(old(config)@, valve_number);
            final(config)@ == old(config)@.update(
                i,
                Valve { automation_status: new_state, ..old(config)@[i] },
            )
        },
{
    match config.get_mut(valve_number) {
        Some(v) => {
            v.automation_status = new_state;
            Ok(())
        },
        None => Err(Error::InvalidValveNumber),
    }
}

/// Creates a valve, held closed with an empty schedule, unless its number is taken.
pub fn create_valve(params: ValveParams, config: &mut ControllerConfig) -> (r: Result<(), Error>)
    requires
        old(config).wf(),
    ensures
        final(config).wf(),
        final(config).address_spec() == old(config).address_spec(),
        r is Err <==> has_valve(old(config)@, params.valve_number),
        r matches Err(e) ==> e == Error::DuplicateValveNumber && *final(config) == *old(config),
        r is Ok ==> {
            let v = final(config)@.last();
            &&& final(config)@.len() == old(config)@.len() + 1
            &&& final(config)@.drop_last() == old(config)@
            &&& v.name == params.name
            &&& v.valve_number == params.valve_number
            &&& v.automation_status == AutomationStatus::ForceClose
            &&& forall|w: Weekday| (#[trigger] v.schedule.day_spec(w))@ == Seq::<Duration>::empty()
        },
{
    let valve = Valve::new(params.name, params.valve_number);
    let ghost made = valve;
    let r = config.push(valve);
    proof {
        if r is Ok {
            assert(final(config)@.drop_last() == old(config)@);
            assert(final(config)@.last() == made);
        }
    }
    r
}

/// Deletes the valve numbered `valve_number`.
pub fn delete_valve(valve_number: ValveNumber, config: &mut ControllerConfig) -> (r: Result<(), Error>)
    requires
        old(config).wf(),
    ensures
        final(config).wf(),
        final(config).address_spec() == old(config).address_spec(),
        r is Err <==> !has_valve(old(config)@, valve_number),
        r matches Err(e) ==> e == Error::InvalidValveNumber,
        final(config)@ == without_valve(old(config)@, valve_number),
        r is Err ==> final(config)@ == old(config)@,
{
    if !config.remove_valve(valve_number) {
        return Err(Error::InvalidValveNumber);
    }
    Ok(())
}

/// Adds the window of `params` to its weekday in the schedule of the valve numbered
/// `valve_number`. Rejected, with nothing changed, when the window is empty or reversed,
/// when there is no such valve, or when the window overlaps one already on that day.
pub fn add_duration(
    valve_number: ValveNumber,
    config: &mut ControllerConfig,
    params: TimetableParams,
) -> (r: Result<(), Error>)
    requires
        old(config).wf(),
    ensures
        final(config).wf(),
        final(config).address_spec() == old(config).address_spec(),
        r is Err ==> final(config)@ == old(config)@,
        r == Err::<(), Error>(Error::BeginAfterEnd) <==> !(params.start_time@ < params.end_time@),
        r == Err::<(), Error>(Error::InvalidValveNumber) <==> params.start_time@
            < params.end_time@ && !has_valve(old(config)@, valve_number),
        r matches Err(e) ==> e == Error::BeginAfterEnd || e == Error::InvalidValveNumber || e
            == Error::OverlappingDurations,
        r == Err::<(), Error>(Error::OverlappingDurations) <==> params.start_time@
            < params.end_time@ && has_valve(old(config)@, valve_number) && conflicts(
            old(config)@[position_of(old(config)@, valve_number)].schedule.day_spec(params.day)@,
            Duration::span(params.start_time, params.end_time),
        ),
        r is Ok ==> {
            let i = position_of(old(config)@, valve_number);
            let before = old(config)@[i];
            let after = final(config)@[i];
            &&& final(config)@.len() == old(config)@.len()
            &&& forall|j: int| 0 <= j < old(config)@.len() && j != i ==> #[trigger] final(config)@[j] == old(config)@[j]
            &&& after.name == before.name
            &&& after.valve_number == before.valve_number
            &&& after.automation_status == before.automation_status
            &&& after.schedule.same_except(before.schedule, params.day)
            &&& after.schedule.day_spec(params.day)@ == before.schedule.day_spec(params.day)@.push(
                Duration::span(params.start_time, params.end_time),
            )
        },
{
    let duration = match Duration::new(params.start_time, params.end_time) {
        Ok(d) => d,
        Err(e) => return Err(e),
    };
    match config.get_mut(valve_number) {
        Some(valve) => {
            let r = valve.add_duration(&params.day, duration);
            proof {
                if r is Err {
                    assert(*final(valve) == *valve);
                }
            }
            r
        },
        None => Err(Error::InvalidValveNumber),
    }
}

/// Removes every window equal to that of `params` from its weekday in the schedule of the
/// valve numbered `valve_number`; a window that is not there is no error. Rejected, with
/// nothing changed, when the window is empty or reversed or when there is no such valve.
pub fn delete_duration(
    valve_number: ValveNumber,
    config: &mut ControllerConfig,
    params: TimetableParams,
) -> (r: Result<(), Error>)
    requires
        old(config).wf(),
    ensures
        final(config).wf(),
        final(config).address_spec() == old(config).address_spec(),
        r is Err ==> final(config)@ == old(config)@,
        r == Err::<(), Error>(Error::BeginAfterEnd) <==> !(params.start_time@ < params.end_time@),
        r == Err::<(), Error>(Error::InvalidValveNumber) <==> params.start_time@
            < params.end_time@ && !has_valve(old(config)@, valve_number),
        r matches Err(e) ==> e == Error::BeginAfterEnd || e == Error::InvalidValveNumber,
        r is Ok ==> {
            let i = position_of(old(config)@, valve_number);
            let before = old(config)@[i];
            let after = final(config)@[i];
            &&& final(config)@.len() == old(config)@.len()
            &&& forall|j: int| 0 <= j < old(config)@.len() && j != i ==> #[trigger] final(config)@[j] == old(config)@[j]
            &&& after.name == before.name
            &&& after.valve_number == before.valve_number
            &&& after.automation_status == before.automation_status
            &&& after.schedule.same_except(before.schedule, params.day)
            &&& after.schedule.day_spec(params.day)@ == without(
                before.schedule.day_spec(params.day)@,
                Duration::span(params.start_time, params.end_time),
            )
        },
{
    let duration = match Duration::new(params.start_time, params.end_time) {
        Ok(d) => d,
        Err(e) => return Err(e),
    };
    match config.get_mut(valve_number) {
        Some(valve) => valve.remove_duration(&params.day, duration),
        None => Err(Error::InvalidValveNumber),
    }
}

/// What is shown of one valve: its identity, mode, schedule, and the state it resolves to.
#[derive(Debug)]
pub struct ValveData<'a> {
    pub name: &'a str,
    pub valve_number: ValveNumber,
    pub automation_status: AutomationStatus,
    pub schedule: &'a Schedule,
    pub valve_status: ValveStatus,
}

impl<'a> ValveData<'a> {
    /// The view of `valve`, with the state it resolves to at `time`.
    pub open spec fn shows(self, valve: Valve, time: DateTime) -> bool {
        &&& self.name@ == valve.name@
        &&& self.valve_number == valve.valve_number
        &&& self.automation_status == valve.automation_status
        &&& *self.schedule == valve.schedule
        &&& self.valve_status == valve.status_spec(time.weekday_spec(), time.time_spec())
    }

    pub fn from(valve: &'a Valve, time: DateTime) -> (r: ValveData<'a>)
        ensures
            r.shows(*valve, time),
    {
        ValveData {
            name: valve.name.as_str(),
            valve_number: valve.valve_number,
            automation_status: valve.automation_status,
            schedule: valve.schedule(),
            valve_status: valve.valve_status(time),
        }
    }
}

/// What the overview shows: every valve, in registry order, and the actuator's address.
#[derive(Debug)]
pub struct HomepageData<'a> {
    pub valves: Vec<ValveData<'a>>,
    pub address: &'a str,
}

impl<'a> HomepageData<'a> {
    pub fn from(config: &'a ControllerConfig, time: DateTime) -> (r: HomepageData<'a>)
        ensures
            r.address@ == config.address_spec(),
            r.valves@.len() == config@.len(),
            forall|i: int| 0 <= i < config@.len() ==> (#[trigger] r.valves@[i]).shows(config@[i], time),
    {
        let n = config.len();
        let mut valves: Vec<ValveData<'a>> = Vec::new();
        let mut i: usize = 0;
        while i < n
            invariant
                n == config@.len(),
                0 <= i <= n,
                valves@.len() == i,
                forall|k: int| 0 <= k < i ==> (#[trigger] valves@[k]).shows(config@[k], time),
            decreases n - i,
        {
            valves.push(ValveData::from(config.at(i), time));
            i = i + 1;
        }
        HomepageData { valves, address: config.address().as_str() }
    }
}

/// The detail view of the valve numbered `valve_number`, judged at `time`.
pub fn render_details<'a>(valve_number: ValveNumber, config: &'a ControllerConfig, time: DateTime) -> (r: Result<ValveData<'a>, Error>)
    ensures
        r is Err <==> !has_valve(config@, valve_number),
        r matches Err(e) ==> e == Error::InvalidValveNumber,
        r matches Ok(d) ==> exists|i: int|
            0 <= i < config@.len() && config@[i].valve_number == valve_number && d.shows(config@[i], time),
{
    match config.get(valve_number) {
        Some(valve) => Ok(ValveData::from(valve, time)),
        None => Err(Error::InvalidValveNumber),
    }
}

/// The overview of all valves, judged at `time`.
pub fn render_homepage<'a>(config: &'a ControllerConfig, time: DateTime) -> (r: HomepageData<'a>)
    ensures
        r.address@ == config.address_spec(),
        r.valves@.len() == config@.len(),
        forall|i: int| 0 <= i < config@.len() ==> (#[trigger] r.valves@[i]).shows(config@[i], time),
{
    HomepageData::from(config, time)
}

} // verus!
