//! Properties that hold of every schedule and every valve.

use crate::schedule::{active_at, Duration};
use crate::time::{TimeOfDay, Weekday};
use crate::valve::{AutomationStatus, Valve, ValveStatus};
use vstd::prelude::*;

verus! {

/// Windows that touch, the first ending exactly where the second begins, overlap, in both
/// directions: back-to-back windows cannot share one day.
pub proof fn touching_windows_overlap(a: Duration, b: Duration)
    requires
        a.begin_time()@ < a.end_time()@,
        b.begin_time()@ < b.end_time()@,
        a.end_time()@ == b.begin_time()@,
    ensures
        a.overlaps(b),
        b.overlaps(a),
{
}

/// A day holding the single window `d` is active at `t` exactly when `t` lies strictly
/// between the window's bounds: not at either bound, and not outside them.
pub proof fn single_window_activity(d: Duration, t: TimeOfDay)
    ensures
        active_at(seq![d], t) <==> d.begin_time()@ < t@ < d.end_time()@,
        t@ == d.begin_time()@ ==> !active_at(seq![d], t),
        t@ == d.end_time()@ ==> !active_at(seq![d], t),
        t@ < d.begin_time()@ || d.end_time()@ < t@ ==> !active_at(seq![d], t),
{
    if active_at(seq![d], t) {
        let i = choose|i: int| 0 <= i < seq![d].len() && (#[trigger] seq![d][i]).covers(t);
        assert(seq![d][i] == d);
    }
    if d.begin_time()@ < t@ < d.end_time()@ {
        assert(seq![d][0].covers(t));
    }
}

/// A valve held open resolves to open, and one held closed to closed, on every day and at
/// every time, whatever its schedule holds.
pub proof fn forced_modes_ignore_schedule(v: Valve, day: Weekday, time: TimeOfDay)
    ensures
        v.automation_status == AutomationStatus::ForceOpen ==> v.status_spec(day, time)
            == ValveStatus::Open,
        v.automation_status == AutomationStatus::ForceClose ==> v.status_spec(day, time)
            == ValveStatus::Close,
{
}

} // verus!
