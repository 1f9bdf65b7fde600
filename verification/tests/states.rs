use athena_led::states::{
    default_duration, default_hold, default_logic, default_mode, default_op, default_speed,
    hm_to_min, in_time_range, minutes_fit, parse_cmp_op, select_active, signal_fresh,
    CmpOp, LedState, Metric, Observation, Rule, RuleProbe, State, StatesFile, SubState,
    Trigger,
};

fn rule(kind: &str) -> Rule {
    Rule {
        rule_type: kind.to_string(),
        op: default_op(),
        val_bits: 0f64.to_bits(),
        start: String::new(),
        end: String::new(),
        dir: String::new(),
        mac: String::new(),
        signal: String::new(),
        script: String::new(),
    }
}

fn state(id: &str, is_default: bool, priority: i32, persistent: bool, trigger: bool) -> State {
    State {
        id: id.to_string(),
        name: String::new(),
        is_default,
        priority,
        persistent,
        hold_secs: default_hold(),
        trigger: if trigger {
            Some(Trigger { logic: default_logic(), rules: vec![rule("http")] })
        } else {
            None
        },
        substates: vec![SubState {
            content: "module:time".to_string(),
            mode: default_mode(),
            speed: default_speed(),
            duration: default_duration(),
            leds: LedState::default(),
        }],
    }
}

#[test]
fn defaults() {
    assert_eq!(default_mode(), "static");
    assert_eq!(default_speed(), 100);
    assert_eq!(default_duration(), 5);
    assert_eq!(default_op(), ">");
    assert_eq!(default_logic(), "or");
    assert_eq!(default_hold(), 10);
    let l = LedState::default();
    assert_eq!((l.clock, l.medal, l.up, l.down), (0, 0, 0, 0));
    assert!(StatesFile::default().states.is_empty());
}

#[test]
fn hm_to_min_values() {
    assert_eq!(hm_to_min("22:00"), 1320);
    assert_eq!(hm_to_min("07:30"), 450);
    assert_eq!(hm_to_min("00:00"), 0);
    assert_eq!(hm_to_min("7"), 0);
    assert_eq!(hm_to_min("1:2:3"), 0);
    assert_eq!(hm_to_min("ab:10"), 10);
    assert_eq!(hm_to_min("-1:30"), -30);
    assert!(minutes_fit("22:30"));
    assert!(!minutes_fit("99999999:00"));
}

#[test]
fn time_windows() {
    // ordinary window, end excluded
    assert!(in_time_range("08:00", "08:00", "17:00"));
    assert!(in_time_range("16:59", "08:00", "17:00"));
    assert!(!in_time_range("17:00", "08:00", "17:00"));
    // across midnight
    assert!(in_time_range("23:10", "22:30", "07:30"));
    assert!(in_time_range("03:00", "22:30", "07:30"));
    assert!(!in_time_range("12:00", "22:30", "07:30"));
    // empty or zero-length windows hold nothing
    assert!(!in_time_range("12:00", "", "07:30"));
    assert!(!in_time_range("12:00", "10:00", "10:00"));
    // the swapped window is the complement
    for now in ["00:00", "07:29", "07:30", "12:00", "22:30", "23:59"] {
        assert_eq!(in_time_range(now, "22:30", "07:30"), !in_time_range(now, "07:30", "22:30"));
    }
}

#[test]
fn cmp_ops() {
    assert_eq!(parse_cmp_op(">"), CmpOp::Gt);
    assert_eq!(parse_cmp_op("<"), CmpOp::Lt);
    assert_eq!(parse_cmp_op(">="), CmpOp::Ge);
    assert_eq!(parse_cmp_op("<="), CmpOp::Le);
    assert_eq!(parse_cmp_op("="), CmpOp::Eq);
    assert_eq!(parse_cmp_op("=="), CmpOp::Eq);
    assert_eq!(parse_cmp_op("in"), CmpOp::Never);
}

#[test]
fn rule_probes() {
    assert_eq!(rule("http").probe(), RuleProbe::Never);
    let mut r = rule("http");
    r.signal = "doorbell".to_string();
    assert_eq!(r.probe(), RuleProbe::Signal);
    assert_eq!(rule("cpu").probe(), RuleProbe::Compare(Metric::Cpu, CmpOp::Gt));
    let mut r = rule("rate");
    r.dir = "down".to_string();
    r.op = "<=".to_string();
    assert_eq!(r.probe(), RuleProbe::Compare(Metric::RxRate, CmpOp::Le));
    assert_eq!(rule("rate").probe(), RuleProbe::Compare(Metric::TxRate, CmpOp::Gt));
    assert_eq!(rule("time").probe(), RuleProbe::TimeWindow);
    assert_eq!(rule("wan").probe(), RuleProbe::WanDown);
    assert_eq!(rule("device").probe(), RuleProbe::Never);
    let mut r = rule("device");
    r.mac = "AA:BB".to_string();
    assert_eq!(r.probe(), RuleProbe::DeviceOnline);
    r.op = "join".to_string();
    assert_eq!(r.probe(), RuleProbe::DeviceOnline);
    r.op = "up".to_string();
    assert_eq!(r.probe(), RuleProbe::DeviceOnline);
    r.op = "down".to_string();
    assert_eq!(r.probe(), RuleProbe::DeviceOffline);
    assert_eq!(rule("idle").probe(), RuleProbe::Never);
    assert_eq!(rule("ipchange").probe(), RuleProbe::IpChanged);
    assert_eq!(rule("script").probe(), RuleProbe::Never);
    let mut r = rule("script");
    r.script = "/bin/true".to_string();
    assert_eq!(r.probe(), RuleProbe::Script);
    assert_eq!(rule("weather").probe(), RuleProbe::Never);
    assert!(signal_fresh(59));
    assert!(!signal_fresh(60));
}

#[test]
fn trigger_logic() {
    let or2 = Trigger { logic: "or".to_string(), rules: vec![rule("cpu"), rule("temp")] };
    assert!(or2.matches(&[false, true]));
    assert!(!or2.matches(&[false, false]));
    let and2 = Trigger { logic: "and".to_string(), rules: vec![rule("cpu"), rule("temp")] };
    assert!(and2.matches(&[true, true]));
    assert!(!and2.matches(&[true, false]));
    let other = Trigger { logic: "xor".to_string(), rules: vec![rule("cpu")] };
    assert!(other.matches(&[true]));
    let empty = Trigger { logic: "and".to_string(), rules: vec![] };
    assert!(!empty.matches(&[]));
}

#[test]
fn selection_follows_the_readme_example() {
    let states = vec![
        state("idle", true, 0, true, false),
        state("night", false, 1, true, true),
        state("busy", false, 5, true, true),
        state("download", false, 6, false, true),
        state("doorbell", false, 20, false, true),
    ];
    // nothing fires: the default state
    let a = select_active(&states, &[false; 5]).unwrap();
    assert_eq!(a.state.id, "idle");
    assert_eq!(a.effective_priority, 100);
    // busy (5 + 100) outranks the doorbell (20)
    let a = select_active(&states, &[false, false, true, false, true]).unwrap();
    assert_eq!(a.state.id, "busy");
    assert_eq!(a.effective_priority, 105);
    // only transients fired: the doorbell (20) wins, the default stays out
    let a = select_active(&states, &[false, false, false, true, true]).unwrap();
    assert_eq!(a.state.id, "doorbell");
    assert_eq!(a.effective_priority, 20);
    // the doorbell alone
    let a = select_active(&states, &[false, false, false, false, true]).unwrap();
    assert_eq!(a.state.id, "doorbell");
    // the night state (1 + 100) outranks the download (6)
    let a = select_active(&states, &[false, true, false, true, false]).unwrap();
    assert_eq!(a.state.id, "night");
    // a fired flag of the default state itself is not read
    let a = select_active(&states, &[true, false, false, false, false]).unwrap();
    assert_eq!(a.state.id, "idle");
}

#[test]
fn selection_edges() {
    // no states, or none hit
    assert!(select_active(&[], &[]).is_none());
    // two defaults and nothing fired: the higher default
    let states = vec![state("d1", true, 0, false, false), state("d2", true, 3, false, false)];
    assert_eq!(select_active(&states, &[false, false]).unwrap().state.id, "d2");
    // a default with a high priority still only falls back
    let states = vec![state("d", true, 500, true, false), state("t", false, 1, false, true)];
    assert_eq!(select_active(&states, &[false, true]).unwrap().state.id, "t");
    assert_eq!(select_active(&states, &[false, false]).unwrap().state.id, "d");
    let states = vec![state("a", false, 3, false, true), state("b", false, 9, false, false)];
    assert!(select_active(&states, &[false, true]).is_none());
    // ties keep the first
    let states = vec![state("a", false, 7, false, true), state("b", false, 7, false, true)];
    assert_eq!(select_active(&states, &[true, true]).unwrap().state.id, "a");
    // a transient with priority 200 beats a persistent with 50
    let states = vec![state("p", false, 50, true, true), state("t", false, 200, false, true)];
    let a = select_active(&states, &[true, true]).unwrap();
    assert_eq!(a.state.id, "t");
    assert_eq!(a.effective_priority, 200);
    assert_eq!(a.state.substates.len(), 1);
    assert!(a.state.trigger.is_some());
}

#[test]
fn rule_results_from_readings() {
    assert!(!rule("idle").holds(&Observation::Flag(true)));
    let mut r = rule("http");
    r.signal = "doorbell".to_string();
    assert!(r.holds(&Observation::SignalAge(Some(59))));
    assert!(!r.holds(&Observation::SignalAge(Some(60))));
    assert!(!r.holds(&Observation::SignalAge(None)));
    assert!(rule("cpu").holds(&Observation::Compared(true)));
    assert!(!rule("cpu").holds(&Observation::Compared(false)));
    assert!(!rule("cpu").holds(&Observation::Flag(true)));
    let mut t = rule("time");
    t.start = "22:30".to_string();
    t.end = "07:30".to_string();
    assert!(t.holds(&Observation::Clock("23:00".to_string())));
    assert!(!t.holds(&Observation::Clock("12:00".to_string())));
    let mut d = rule("device");
    d.mac = "AA:BB".to_string();
    assert!(d.holds(&Observation::Online(true)));
    d.op = "down".to_string();
    assert!(!d.holds(&Observation::Online(true)));
    assert!(d.holds(&Observation::Online(false)));
    assert!(rule("wan").holds(&Observation::Flag(true)));
    assert!(rule("ipchange").holds(&Observation::Flag(true)));
    let mut sc = rule("script");
    sc.script = "/bin/true".to_string();
    assert!(!sc.holds(&Observation::Flag(false)));
    assert!(sc.holds(&Observation::Flag(true)));
}
