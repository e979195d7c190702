use valve_control::{
    add_duration, create_valve, delete_duration, delete_valve, reconcile, render_details,
    render_homepage, update_valve_status, valve_actuation, valve_address, AutomationStatus,
    ControllerConfig, DailySchedule, DateTime, Duration, Error, TimeOfDay, TimetableParams, Valve,
    ValveParams, ValveStatus, Weekday,
};

fn hm(h: u32, m: u32) -> TimeOfDay {
    TimeOfDay::from_hms_opt(h, m, 0).unwrap()
}

fn span(b: TimeOfDay, e: TimeOfDay) -> Duration {
    Duration::new(b, e).unwrap()
}

fn slot(b: TimeOfDay, e: TimeOfDay, day: Weekday) -> TimetableParams {
    TimetableParams { start_time: b, end_time: e, day }
}

#[test]
fn interval_needs_begin_before_end() {
    assert!(Duration::new(hm(8, 0), hm(9, 0)).is_ok());
    assert!(Duration::new(hm(0, 0), TimeOfDay::from_hms_nano_opt(0, 0, 0, 1).unwrap()).is_ok());
    assert!(matches!(Duration::new(hm(9, 0), hm(9, 0)), Err(Error::BeginAfterEnd)));
    assert!(matches!(Duration::new(hm(10, 0), hm(9, 0)), Err(Error::BeginAfterEnd)));
    let d = span(hm(8, 0), hm(9, 0));
    assert_eq!(d.begin(), hm(8, 0));
    assert_eq!(d.end(), hm(9, 0));
}

#[test]
fn touching_intervals_overlap() {
    let a = span(hm(12, 0), hm(13, 0));
    let b = span(hm(13, 0), hm(14, 0));
    assert!(a.is_overlapping(&b));
    assert!(b.is_overlapping(&a));
    let c = span(TimeOfDay::from_hms_opt(13, 0, 1).unwrap(), hm(14, 0));
    assert!(!a.is_overlapping(&c));
    assert!(!c.is_overlapping(&a));
    let inner = span(hm(12, 15), hm(12, 45));
    assert!(a.is_overlapping(&inner));
    assert!(inner.is_overlapping(&a));
}

#[test]
fn overlapping_add_leaves_day_unchanged() {
    let mut day = DailySchedule::new();
    day.add_entry(span(hm(12, 0), hm(13, 0))).unwrap();
    day.add_entry(span(hm(15, 0), hm(16, 0))).unwrap();
    let r = day.add_entry(span(hm(13, 0), hm(14, 0)));
    assert!(matches!(r, Err(Error::OverlappingDurations)));
    assert_eq!(
        day.entries(),
        &vec![span(hm(12, 0), hm(13, 0)), span(hm(15, 0), hm(16, 0))]
    );
    day.add_entry(span(hm(13, 30), hm(14, 0))).unwrap();
    assert_eq!(day.entries().len(), 3);
    assert_eq!(day.entries()[2], span(hm(13, 30), hm(14, 0)));
}

#[test]
fn removing_missing_interval_is_noop() {
    let mut day = DailySchedule::new();
    day.add_entry(span(hm(12, 0), hm(13, 0))).unwrap();
    day.add_entry(span(hm(15, 0), hm(16, 0))).unwrap();
    assert!(day.remove_entry(span(hm(12, 0), hm(12, 30))).is_ok());
    assert_eq!(
        day.entries(),
        &vec![span(hm(12, 0), hm(13, 0)), span(hm(15, 0), hm(16, 0))]
    );
    assert!(day.remove_entry(span(hm(12, 0), hm(13, 0))).is_ok());
    assert_eq!(day.entries(), &vec![span(hm(15, 0), hm(16, 0))]);
}

#[test]
fn activity_excludes_boundaries() {
    let mut day = DailySchedule::new();
    day.add_entry(span(hm(12, 30), hm(13, 0))).unwrap();
    assert!(!day.should_be_running(&hm(12, 30)));
    assert!(!day.should_be_running(&hm(13, 0)));
    assert!(day.should_be_running(&hm(12, 45)));
    assert!(day.should_be_running(&TimeOfDay::from_hms_nano_opt(12, 30, 0, 1).unwrap()));
    assert!(!day.should_be_running(&hm(12, 0)));
    assert!(!day.should_be_running(&hm(13, 1)));
    let d = span(hm(12, 30), hm(13, 0));
    assert!(!d.contains(&hm(12, 30)));
    assert!(d.contains(&hm(12, 59)));
}

#[test]
fn forced_modes_ignore_schedule() {
    let mut v = Valve::new("lawn".to_string(), 1);
    v.add_duration(&Weekday::Wed, span(hm(6, 0), hm(7, 0))).unwrap();
    for day in [Weekday::Mon, Weekday::Wed, Weekday::Sun] {
        for t in [hm(0, 0), hm(6, 30), hm(7, 0), hm(23, 59)] {
            v.automation_status = AutomationStatus::ForceOpen;
            assert_eq!(v.status_at(day, &t), ValveStatus::Open);
            v.automation_status = AutomationStatus::ForceClose;
            assert_eq!(v.status_at(day, &t), ValveStatus::Close);
        }
    }
    v.automation_status = AutomationStatus::Scheduled;
    assert_eq!(v.status_at(Weekday::Wed, &hm(6, 30)), ValveStatus::Open);
    assert_eq!(v.status_at(Weekday::Thu, &hm(6, 30)), ValveStatus::Close);
}

#[test]
fn new_valve_is_closed_and_empty() {
    let v = Valve::new("bed".to_string(), 3);
    assert_eq!(v.name, "bed");
    assert_eq!(v.valve_number, 3);
    assert_eq!(v.automation_status, AutomationStatus::ForceClose);
    for day in [Weekday::Mon, Weekday::Tue, Weekday::Wed, Weekday::Thu, Weekday::Fri, Weekday::Sat, Weekday::Sun] {
        assert!(v.schedule().day(&day).entries().is_empty());
    }
}

#[test]
fn registry_absent_and_duplicate() {
    let mut config = ControllerConfig::new("http://localhost:4040".to_string());
    assert!(config.get(7).is_none());
    assert!(config.get_mut(7).is_none());
    config.push(Valve::new("first".to_string(), 7)).unwrap();
    let r = config.push(Valve::new("second".to_string(), 7));
    assert!(matches!(r, Err(Error::DuplicateValveNumber)));
    assert_eq!(config.len(), 1);
    assert_eq!(config.get(7).unwrap().name, "first");
    assert!(config.get(8).is_none());
    config.get_mut(7).unwrap().automation_status = AutomationStatus::ForceOpen;
    assert_eq!(config.get(7).unwrap().automation_status, AutomationStatus::ForceOpen);
}

#[test]
fn registry_keeps_creation_order() {
    let mut config = ControllerConfig::new("http://localhost:4040".to_string());
    for (name, n) in [("blub", 0u8), ("test", 1), ("new", 2)] {
        config.push(Valve::new(name.to_string(), n)).unwrap();
    }
    let numbers: Vec<u8> = config.iter().map(|v| v.valve_number).collect();
    assert_eq!(numbers, vec![0, 1, 2]);
    assert!(config.remove_valve(1));
    assert!(!config.remove_valve(1));
    let numbers: Vec<u8> = config.iter().map(|v| v.valve_number).collect();
    assert_eq!(numbers, vec![0, 2]);
    assert_eq!(config.at(1).name, "new");
    assert_eq!(config.address(), "http://localhost:4040");
}

#[test]
fn drip_scenario() {
    let mut config = ControllerConfig::new("http://localhost:4040".to_string());
    create_valve(ValveParams { valve_number: 5, name: "drip".to_string() }, &mut config).unwrap();
    add_duration(5, &mut config, slot(hm(12, 30), hm(13, 0), Weekday::Mon)).unwrap();
    update_valve_status(5, &mut config, AutomationStatus::Scheduled).unwrap();
    let valve = config.get(5).unwrap();
    assert_eq!(valve.status_at(Weekday::Mon, &hm(12, 45)), ValveStatus::Open);
    assert_eq!(valve.status_at(Weekday::Mon, &hm(13, 0)), ValveStatus::Close);
    assert_eq!(valve.status_at(Weekday::Mon, &hm(13, 1)), ValveStatus::Close);
    assert_eq!(valve.status_at(Weekday::Tue, &hm(12, 45)), ValveStatus::Close);
    // 2024-01-01 fell on a Monday, 2024-01-02 on a Tuesday.
    let monday = |t| DateTime::from_ymd_opt(2024, 1, 1, t).unwrap();
    assert_eq!(valve.valve_status(monday(hm(12, 45))), ValveStatus::Open);
    assert_eq!(valve.valve_status(monday(hm(13, 0))), ValveStatus::Close);
    assert_eq!(valve.valve_status(monday(hm(13, 1))), ValveStatus::Close);
    let tuesday = DateTime::from_ymd_opt(2024, 1, 2, hm(12, 45)).unwrap();
    assert_eq!(valve.valve_status(tuesday), ValveStatus::Close);
}

#[test]
fn reconciliation_tick_over_two_valves() {
    let mut config = ControllerConfig::new("http://localhost:4040".to_string());
    create_valve(ValveParams { valve_number: 5, name: "drip".to_string() }, &mut config).unwrap();
    create_valve(ValveParams { valve_number: 9, name: "hedge".to_string() }, &mut config).unwrap();
    add_duration(5, &mut config, slot(hm(12, 30), hm(13, 0), Weekday::Mon)).unwrap();
    update_valve_status(5, &mut config, AutomationStatus::Scheduled).unwrap();
    update_valve_status(9, &mut config, AutomationStatus::ForceClose).unwrap();
    let now = DateTime::from_ymd_opt(2024, 1, 1, hm(12, 45)).unwrap();
    let tick = reconcile(&config, now);
    assert_eq!(tick.len(), 2);
    let first = tick[0].as_ref().unwrap();
    let second = tick[1].as_ref().unwrap();
    assert_eq!(first.valve_number, 5);
    assert_eq!(first.url, "http://localhost:4040/valves/5");
    assert_eq!(first.body(), "open");
    assert_eq!(second.valve_number, 9);
    assert_eq!(second.url, "http://localhost:4040/valves/9");
    assert_eq!(second.body(), "closed");
}

#[test]
fn reconciliation_skips_unbuildable_requests() {
    let mut config = ControllerConfig::new("not a url".to_string());
    config.push(Valve::new("a".to_string(), 1)).unwrap();
    config.push(Valve::new("b".to_string(), 2)).unwrap();
    let now = DateTime::from_ymd_opt(2024, 1, 1, hm(12, 45)).unwrap();
    let tick = reconcile(&config, now);
    assert_eq!(tick.len(), 2);
    assert!(matches!(tick[0], Err(Error::InvalidAddress)));
    assert!(matches!(tick[1], Err(Error::InvalidAddress)));
    let empty = ControllerConfig::new("http://localhost:4040".to_string());
    assert!(reconcile(&empty, now).is_empty());
}

#[test]
fn actuator_addresses() {
    assert_eq!(
        valve_address("https://localhost:4040", 0).unwrap(),
        "https://localhost:4040/valves/0"
    );
    assert_eq!(
        valve_address("http://actuator.local/api/", 255).unwrap(),
        "http://actuator.local/valves/255"
    );
    assert!(valve_address("no scheme here", 3).is_none());
    let mut v = Valve::new("a".to_string(), 42);
    v.automation_status = AutomationStatus::ForceOpen;
    let a = valve_actuation("http://10.0.0.2:8000", &v, Weekday::Fri, &hm(3, 0)).unwrap();
    assert_eq!(a.url, "http://10.0.0.2:8000/valves/42");
    assert_eq!(a.status, ValveStatus::Open);
    assert_eq!(a.body(), "open");
    assert!(matches!(valve_actuation("::", &v, Weekday::Fri, &hm(3, 0)), Err(Error::InvalidAddress)));
}

#[test]
fn calendar_dates() {
    let t = hm(8, 15);
    let d = DateTime::from_ymd_opt(2024, 2, 29, t).unwrap();
    assert_eq!(d.weekday(), Weekday::Thu);
    assert_eq!((d.year(), d.month(), d.day()), (2024, 2, 29));
    assert_eq!(d.time(), t);
    assert!(DateTime::from_ymd_opt(2023, 2, 29, t).is_none());
    assert!(DateTime::from_ymd_opt(2023, 13, 1, t).is_none());
    assert_eq!(DateTime::from_ymd_opt(2023, 12, 31, t).unwrap().weekday(), Weekday::Sun);
    assert_eq!(DateTime::from_ymd_opt(2000, 1, 1, t).unwrap().weekday(), Weekday::Sat);
}

#[test]
fn times_of_day() {
    assert!(TimeOfDay::from_hms_opt(24, 0, 0).is_none());
    assert!(TimeOfDay::from_hms_opt(23, 60, 0).is_none());
    assert!(TimeOfDay::from_hms_opt(23, 59, 60).is_none());
    assert!(TimeOfDay::from_hms_nano_opt(0, 0, 0, 1_000_000_000).is_none());
    let t = TimeOfDay::from_hms_nano_opt(1, 2, 3, 4).unwrap();
    assert_eq!(t.num_seconds_from_midnight(), 3723);
    assert_eq!(t.nanosecond(), 4);
    assert_eq!(TimeOfDay::from_num_seconds_from_midnight_opt(3723, 4), Some(t));
    assert!(TimeOfDay::from_num_seconds_from_midnight_opt(86_400, 0).is_none());
    assert!(TimeOfDay::midnight().is_before(&t));
    assert!(!t.is_before(&t));
    assert_eq!(Weekday::Sun.num_days_from_monday(), 6);
    assert_eq!(Weekday::from_index(2), Weekday::Wed);
}

#[test]
fn request_errors() {
    let mut config = ControllerConfig::new("http://localhost:4040".to_string());
    create_valve(ValveParams { valve_number: 1, name: "a".to_string() }, &mut config).unwrap();
    let dup = create_valve(ValveParams { valve_number: 1, name: "b".to_string() }, &mut config);
    assert!(matches!(dup, Err(Error::DuplicateValveNumber)));
    assert!(matches!(
        update_valve_status(2, &mut config, AutomationStatus::ForceOpen),
        Err(Error::InvalidValveNumber)
    ));
    assert!(matches!(
        add_duration(1, &mut config, slot(hm(9, 0), hm(8, 0), Weekday::Mon)),
        Err(Error::BeginAfterEnd)
    ));
    assert!(matches!(
        add_duration(2, &mut config, slot(hm(8, 0), hm(9, 0), Weekday::Mon)),
        Err(Error::InvalidValveNumber)
    ));
    add_duration(1, &mut config, slot(hm(8, 0), hm(9, 0), Weekday::Mon)).unwrap();
    assert!(matches!(
        add_duration(1, &mut config, slot(hm(9, 0), hm(10, 0), Weekday::Mon)),
        Err(Error::OverlappingDurations)
    ));
    add_duration(1, &mut config, slot(hm(9, 0), hm(10, 0), Weekday::Tue)).unwrap();
    assert!(matches!(
        delete_duration(1, &mut config, slot(hm(9, 0), hm(9, 0), Weekday::Tue)),
        Err(Error::BeginAfterEnd)
    ));
    assert!(matches!(
        delete_duration(3, &mut config, slot(hm(9, 0), hm(10, 0), Weekday::Tue)),
        Err(Error::InvalidValveNumber)
    ));
    delete_duration(1, &mut config, slot(hm(7, 0), hm(10, 0), Weekday::Tue)).unwrap();
    assert_eq!(config.get(1).unwrap().schedule().day(&Weekday::Tue).entries().len(), 1);
    delete_duration(1, &mut config, slot(hm(9, 0), hm(10, 0), Weekday::Tue)).unwrap();
    assert!(config.get(1).unwrap().schedule().day(&Weekday::Tue).entries().is_empty());
    assert_eq!(config.get(1).unwrap().schedule().day(&Weekday::Mon).entries().len(), 1);
    assert!(matches!(delete_valve(2, &mut config), Err(Error::InvalidValveNumber)));
    delete_valve(1, &mut config).unwrap();
    assert!(config.get(1).is_none());
}

#[test]
fn rendered_views() {
    let mut config = ControllerConfig::new("http://localhost:4040".to_string());
    create_valve(ValveParams { valve_number: 4, name: "roses".to_string() }, &mut config).unwrap();
    create_valve(ValveParams { valve_number: 2, name: "tomatoes".to_string() }, &mut config).unwrap();
    update_valve_status(2, &mut config, AutomationStatus::ForceOpen).unwrap();
    let now = DateTime::from_ymd_opt(2024, 1, 3, hm(10, 0)).unwrap();
    let detail = render_details(2, &config, now).unwrap();
    assert_eq!(detail.name, "tomatoes");
    assert_eq!(detail.valve_status, ValveStatus::Open);
    assert!(matches!(render_details(3, &config, now), Err(Error::InvalidValveNumber)));
    let home = render_homepage(&config, now);
    assert_eq!(home.address, "http://localhost:4040");
    assert_eq!(home.valves.len(), 2);
    assert_eq!(home.valves[0].valve_number, 4);
    assert_eq!(home.valves[0].valve_status, ValveStatus::Close);
    assert_eq!(home.valves[1].automation_status, AutomationStatus::ForceOpen);
}
