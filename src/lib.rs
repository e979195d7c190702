//! Scheduling and automation engine for remotely actuated irrigation valves.
//!
//! A valve is held open, held closed, or follows a weekly schedule of non-overlapping
//! windows; the registry keeps the valves in creation order, and each reconciliation tick
//! works out the request that drives every valve to the state it resolves to at one instant.

pub mod error;
pub mod executor;
pub mod handlers;
pub mod laws;
pub mod registry;
pub mod schedule;
pub mod time;
pub mod valve;

pub use error::Error;
pub use executor::{reconcile, valve_actuation, valve_address, Actuation};
pub use handlers::{
    add_duration, create_valve, delete_duration, delete_valve, render_details, render_homepage,
    update_valve_status, HomepageData, TimetableParams, ValveData, ValveParams,
};
pub use registry::ControllerConfig;
pub use schedule::{DailySchedule, Duration, Schedule};
pub use time::{DateTime, TimeOfDay, Weekday};
pub use valve::{AutomationStatus, Valve, ValveNumber, ValveStatus};
