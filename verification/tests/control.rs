use std::time::Instant;

use athena_led::control::{
    build_pet_request, handle_command, new_shared, resolve_pet, try_handle_command, ControlState,
};

/// Runs one line against the shared state and the channel value, applying
/// what the command sends, as the control port does.
fn run(line: &str, channel: &mut i32, st: &mut ControlState, pet_json: Option<&str>) -> String {
    let (reply, send) = handle_command(line, *channel, st, pet_json, Instant::now());
    if let Some(v) = send {
        *channel = v;
    }
    reply
}

#[test]
fn cmd_next_increments() {
    let shared = new_shared();
    let mut st = shared.lock().unwrap();
    let mut rx = 1i32;
    assert_eq!(run("next", &mut rx, &mut st, None), "OK");
    assert_eq!(rx, 2);
}

#[test]
fn cmd_next_wakes_from_sleep() {
    let shared = new_shared();
    let mut st = shared.lock().unwrap();
    let mut rx = 1i32;
    assert_eq!(rx, 1);
    rx = -1;
    assert_eq!(run("next", &mut rx, &mut st, None), "OK");
    assert_eq!(rx, 1);
}

#[test]
fn cmd_home_sets_flag() {
    let shared = new_shared();
    let mut rx = 1i32;
    {
        let mut st = shared.lock().unwrap();
        run("home", &mut rx, &mut st, None);
    }
    assert!(shared.lock().unwrap().go_home);
}

#[test]
fn cmd_light() {
    let shared = new_shared();
    let mut st = shared.lock().unwrap();
    let mut rx = 1i32;
    assert_eq!(run("light 3", &mut rx, &mut st, None), "OK");
    assert_eq!(st.light_override, Some(3));
    assert_eq!(run("light auto", &mut rx, &mut st, None), "OK");
    assert_eq!(st.light_override, None);
    assert!(run("light 9", &mut rx, &mut st, None).starts_with("ERR"));
}

#[test]
fn cmd_show() {
    let shared = new_shared();
    let mut st = shared.lock().unwrap();
    let mut rx = 1i32;
    assert_eq!(run("show 10 HELLO WORLD", &mut rx, &mut st, None), "OK");
    assert_eq!(st.pending_show, Some(("HELLO WORLD".to_string(), 10)));
    assert!(run("show abc", &mut rx, &mut st, None).starts_with("ERR"));
    assert!(run("show 0 X", &mut rx, &mut st, None).starts_with("ERR"));
}

#[test]
fn cmd_toggle_and_unknown() {
    let shared = new_shared();
    let mut st = shared.lock().unwrap();
    let mut rx = 1i32;
    run("toggle", &mut rx, &mut st, None);
    assert_eq!(rx, -1);
    run("toggle", &mut rx, &mut st, None);
    assert_eq!(rx, 1);
    assert!(run("foobar", &mut rx, &mut st, None).starts_with("ERR"));
    assert_eq!(run("ping", &mut rx, &mut st, None), "PONG");
}

#[test]
fn cmd_pet_unknown() {
    let shared = new_shared();
    let mut st = shared.lock().unwrap();
    let mut rx = 1i32;
    // without pet.json the state is unknown
    assert!(run("pet thinking", &mut rx, &mut st, None).starts_with("ERR"));
}

#[test]
fn cmd_petidle() {
    let shared = new_shared();
    let mut st = shared.lock().unwrap();
    let mut rx = 1i32;
    assert_eq!(run("petidle 60", &mut rx, &mut st, None), "OK");
    assert_eq!(st.pet_idle_secs, Some(60u64));
    assert!(run("petidle 0", &mut rx, &mut st, None).starts_with("ERR"));
}

// ---------------------------------------------------------------------------

const PET_JSON: &str = r#"{"thinking": "pet_thinking.bin", "angry": "cpu", "idle": "clock", "hello": "Zzz", "num": 3}"#;

fn fresh() -> ControlState {
    ControlState::default()
}

#[test]
fn default_state_is_empty() {
    let st = fresh();
    assert!(!st.go_home);
    assert_eq!(st.light_override, None);
    assert_eq!(st.pending_show, None);
    assert!(st.pending_alerts.is_empty());
    assert_eq!(st.pending_pet, None);
    assert_eq!(st.pet_idle_secs, None);
    assert!(st.pet_last_active.is_none());
}

#[test]
fn ping_is_case_insensitive_and_trimmed() {
    let mut st = fresh();
    let mut rx = 3;
    assert_eq!(run("  PING \r\n", &mut rx, &mut st, None), "PONG");
    assert_eq!(run("Next", &mut rx, &mut st, None), "OK");
    assert_eq!(rx, 4);
}

#[test]
fn off_sleep_wake() {
    let mut st = fresh();
    let mut rx = 5;
    assert_eq!(run("off", &mut rx, &mut st, None), "OK");
    assert_eq!(rx, -1);
    assert_eq!(run("wake", &mut rx, &mut st, None), "OK");
    assert_eq!(rx, 1);
    assert_eq!(run("sleep", &mut rx, &mut st, None), "OK");
    assert_eq!(rx, -1);
    assert_eq!(run("home", &mut rx, &mut st, None), "OK");
    assert_eq!(rx, 1);
    assert!(st.go_home);
}

#[test]
fn empty_and_unknown_replies() {
    let mut st = fresh();
    let mut rx = 1;
    assert_eq!(run("   ", &mut rx, &mut st, None), "ERR 空指令");
    assert_eq!(
        run("Foo bar", &mut rx, &mut st, None),
        "ERR 未知指令: foo (可用: next/home/off/wake/toggle/light/show/ping/pet/petb/petidle)"
    );
    assert_eq!(rx, 1);
}

#[test]
fn light_errors() {
    let mut st = fresh();
    let mut rx = 1;
    assert_eq!(run("light", &mut rx, &mut st, None), "ERR 用法: light <0-7|auto>");
    assert_eq!(run("light -1", &mut rx, &mut st, None), "ERR light 参数需为 0-7 或 auto");
    assert_eq!(run("light 7", &mut rx, &mut st, None), "OK");
    assert_eq!(st.light_override, Some(7));
    assert_eq!(run("light 256", &mut rx, &mut st, None), "ERR light 参数需为 0-7 或 auto");
    assert_eq!(st.light_override, Some(7));
    assert_eq!(run("light +0", &mut rx, &mut st, None), "OK");
    assert_eq!(st.light_override, Some(0));
}

#[test]
fn show_bounds_and_nudge() {
    let mut st = fresh();
    let mut rx = 2;
    assert_eq!(run("show 300   padded text  ", &mut rx, &mut st, None), "OK");
    assert_eq!(st.pending_show, Some(("padded text".to_string(), 300)));
    assert_eq!(rx, 3);
    assert_eq!(run("show 301 X", &mut rx, &mut st, None), "ERR 用法: show <1-300秒> <文本>");
    assert_eq!(run("show 5", &mut rx, &mut st, None), "ERR 用法: show <1-300秒> <文本>");
    // asleep: the show is queued but the channel is left alone
    rx = -1;
    assert_eq!(run("show 1 Y", &mut rx, &mut st, None), "OK");
    assert_eq!(rx, -1);
    assert_eq!(st.pending_show, Some(("Y".to_string(), 1)));
}

#[test]
fn pet_with_file() {
    let mut st = fresh();
    let mut rx = 1;
    assert_eq!(run("pet thinking", &mut rx, &mut st, Some(PET_JSON)), "OK");
    assert_eq!(st.pending_pet, Some(("pet_thinking.bin".to_string(), 300, String::new(), 0)));
    assert!(st.pet_last_active.is_some());
    assert_eq!(rx, 2);
    assert_eq!(run("pet angry", &mut rx, &mut st, Some(PET_JSON)), "OK");
    assert_eq!(st.pending_pet, Some(("module:cpu".to_string(), 300, String::new(), 0)));
    assert_eq!(run("pet idle", &mut rx, &mut st, Some(PET_JSON)), "OK");
    assert_eq!(st.pending_pet, Some(("module:timeBlink".to_string(), 300, String::new(), 0)));
    assert_eq!(run("pet hello", &mut rx, &mut st, Some(PET_JSON)), "OK");
    assert_eq!(st.pending_pet, Some(("text:Zzz".to_string(), 300, String::new(), 0)));
    assert_eq!(st.pending_show, None);
    assert_eq!(run("pet num", &mut rx, &mut st, Some(PET_JSON)), "ERR 未知宠物状态: num");
    assert_eq!(run("pet nope", &mut rx, &mut st, Some(PET_JSON)), "ERR 未知宠物状态: nope");
    assert_eq!(run("pet", &mut rx, &mut st, Some(PET_JSON)), "ERR 用法: pet <状态名>");
    assert_eq!(run("pet thinking", &mut rx, &mut st, Some("not json")), "ERR 未知宠物状态: thinking");
}

#[test]
fn petb_announces_in_upper_case() {
    let mut st = fresh();
    let mut rx = 1;
    assert_eq!(run("petb thinking", &mut rx, &mut st, Some(PET_JSON)), "OK");
    assert_eq!(st.pending_show, Some(("THINKING".to_string(), 2)));
    assert_eq!(st.pending_pet, Some(("pet_thinking.bin".to_string(), 300, String::new(), 0)));
    assert_eq!(run("petb", &mut rx, &mut st, Some(PET_JSON)), "ERR 用法: petb <状态名>");
}

#[test]
fn showraw_requests() {
    let mut st = fresh();
    let mut rx = 1;
    assert_eq!(run("showraw cpu 30", &mut rx, &mut st, None), "OK");
    assert_eq!(st.pending_pet, Some(("module:cpu".to_string(), 30, String::new(), 0)));
    assert_eq!(run("showraw text:hi 999", &mut rx, &mut st, None), "OK");
    assert_eq!(st.pending_pet, Some(("text:hi".to_string(), 60, String::new(), 0)));
    assert_eq!(run("showraw a.bin 0", &mut rx, &mut st, None), "OK");
    assert_eq!(st.pending_pet, Some(("a.bin".to_string(), 1, String::new(), 0)));
    assert_eq!(run("showraw time", &mut rx, &mut st, None), "OK");
    assert_eq!(st.pending_pet, Some(("module:time".to_string(), 10, String::new(), 0)));
    // mode and frame interval follow the seconds
    assert_eq!(run("showraw time 20 flow 80", &mut rx, &mut st, None), "OK");
    assert_eq!(st.pending_pet, Some(("module:time".to_string(), 20, "flow".to_string(), 80)));
    assert_eq!(run("showraw pet_a.bin 5 type", &mut rx, &mut st, None), "OK");
    assert_eq!(st.pending_pet, Some(("pet_a.bin".to_string(), 5, "type".to_string(), 0)));
    assert_eq!(run("showraw cpu x static fast", &mut rx, &mut st, None), "OK");
    assert_eq!(st.pending_pet, Some(("module:cpu".to_string(), 10, "static".to_string(), 0)));
    assert_eq!(
        run("showraw", &mut rx, &mut st, None),
        "ERR 用法: showraw <spec> <秒数> [mode] [speed]"
    );
}

#[test]
fn petidle_errors() {
    let mut st = fresh();
    let mut rx = 1;
    assert_eq!(run("petidle", &mut rx, &mut st, None), "ERR 用法: petidle <1-N秒>");
    assert_eq!(run("petidle x", &mut rx, &mut st, None), "ERR 用法: petidle <1-N秒>");
    assert_eq!(st.pet_idle_secs, None);
}

#[test]
fn state_stays_well_formed() {
    let mut st = fresh();
    let mut rx = 1;
    for line in ["light 9", "show 0 x", "petidle 0", "showraw cpu 0", "light 5", "show 300 a"] {
        run(line, &mut rx, &mut st, None);
        assert!(st.light_override.map_or(true, |l| l <= 7));
        assert!(st.pending_show.as_ref().map_or(true, |p| 1 <= p.1 && p.1 <= 300));
        assert!(st.pet_idle_secs.map_or(true, |s| s >= 1));
        assert!(st.pending_pet.as_ref().map_or(true, |p| 1 <= p.1 && p.1 <= 300));
    }
}

#[test]
fn pet_requests() {
    assert_eq!(build_pet_request("x.bin"), ("x.bin".to_string(), 300));
    assert_eq!(build_pet_request("clock"), ("module:timeBlink".to_string(), 300));
    assert_eq!(build_pet_request("updl"), ("module:updl".to_string(), 300));
    assert_eq!(build_pet_request("CPU"), ("text:CPU".to_string(), 300));
    assert_eq!(build_pet_request(""), ("text:".to_string(), 300));
}

#[test]
fn resolve_pet_lookups() {
    assert_eq!(resolve_pet(Some(PET_JSON), "thinking"), Some("pet_thinking.bin".to_string()));
    assert_eq!(resolve_pet(Some(PET_JSON), "num"), None);
    assert_eq!(resolve_pet(Some("[1,2]"), "a"), None);
    assert_eq!(resolve_pet(None, "thinking"), None);
}

#[test]
fn channel_at_its_maximum() {
    let mut st = fresh();
    let max = i32::MAX;
    // commands that do not add to the channel still work
    for (line, reply, send) in [
        ("ping", "PONG", None),
        ("off", "OK", Some(-1)),
        ("wake", "OK", Some(1)),
        ("toggle", "OK", Some(-1)),
        ("light 2", "OK", None),
        ("petidle 5", "OK", None),
        ("show 0 x", "ERR 用法: show <1-300秒> <文本>", None),
    ] {
        let (r, s) = try_handle_command(line, max, &mut st, None, Instant::now()).unwrap();
        assert_eq!(r, reply);
        assert_eq!(s, send);
    }
    // those that add 1 are refused, leaving the state alone
    for line in ["next", "home", "show 5 hi", "showraw cpu"] {
        assert!(try_handle_command(line, max, &mut st, None, Instant::now()).is_none());
    }
    assert!(try_handle_command("pet thinking", max, &mut st, Some(PET_JSON), Instant::now()).is_none());
    assert!(!st.go_home);
    assert_eq!(st.pending_show, None);
    assert_eq!(st.pending_pet, None);
    // a pet request that fails adds nothing and is answered
    let (r, s) = try_handle_command("pet nope", max, &mut st, Some(PET_JSON), Instant::now()).unwrap();
    assert_eq!(r, "ERR 未知宠物状态: nope");
    assert_eq!(s, None);
}
