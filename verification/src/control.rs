//! The control port's line protocol: one command per line, answered with
//! `OK`, `PONG` or `ERR ...`, writing the shared control state that the
//! scheduler consumes and asking for a new value on the channel-switch watch.
//!
//! The channel value is an `i32`: negative means the screen sleeps, positive is
//! the current channel. `handle_command` takes the value the watch holds and
//! returns the value to send, if any; the caller does the sending.

use std::sync::Arc;
use std::sync::Mutex;
use std::time::Instant;

use vstd::prelude::*;

use crate::text::{
    ascii_lower, ascii_upper, is_ascii_text, lowercase, split_first, to_lower, to_upper, uppercase,
    after_first, before_first, concat2, concat3, ends_with, opt_view, parse_u64, parse_u8,
    parsed_u64, parsed_u8, str_ends_with, str_eq, str_has_char, trim, trimmed,
};

verus! {

// ---------------------------------------------------------------------------
// Outside types
// ---------------------------------------------------------------------------

/// `std::time::Instant`, carried through as an opaque value.
#[verifier::external_type_specification]
#[verifier::external_body]
pub struct ExInstant(Instant);

/// `std::sync::Mutex`, carried through as an opaque value.
#[verifier::external_type_specification]
#[verifier::external_body]
#[verifier::reject_recursive_types(T)]
pub struct ExMutex<T: ?Sized>(Mutex<T>);

// ---------------------------------------------------------------------------
// Data
// ---------------------------------------------------------------------------

/// A system alert (temperature, network down, new device, IP change) that the
/// scheduler shows between two modules.
#[derive(Debug, Clone, PartialEq)]
pub struct Alert {
    pub text: String,
    /// `true`: urgent (blinking, all four status lights on); `false`: a notice.
    pub blink: bool,
    pub secs: u64,
}

/// The control state that the scheduler consumes at each module boundary.
pub struct ControlState {
    /// Double press / `home`: go back to channel 1.
    pub go_home: bool,
    /// Brightness locked by `light` (above the night brightness); `None` = automatic.
    pub light_override: Option<u8>,
    /// Text to show next: (text, seconds).
    pub pending_show: Option<(String, u64)>,
    /// System alerts queued by background tasks.
    pub pending_alerts: Vec<Alert>,
    /// Pet request to play next: (display spec, seconds, mode, frame interval ms).
    pub pending_pet: Option<(String, u64, String, u64)>,
    /// Idle timeout in seconds after which the pet returns to its idle state.
    pub pet_idle_secs: Option<u64>,
    /// When the last pet request arrived.
    pub pet_last_active: Option<Instant>,
}

/// The control state shared between the control port and the scheduler.
pub type SharedControl = Arc<Mutex<ControlState>>;

impl ControlState {
    /// What every command keeps: the brightness is a level 0-7, shows and pet
    /// requests last 1 to 300 seconds, the idle timeout is at least a second.
    pub open spec fn wf(&self) -> bool {
        &&& (self.light_override matches Some(l) ==> l <= 7)
        &&& (self.pending_show matches Some(p) ==> 1 <= p.1 <= 300)
        &&& (self.pet_idle_secs matches Some(s) ==> s >= 1)
        &&& (self.pending_pet matches Some(p) ==> 1 <= p.1 <= 300)
    }
}

impl Default for ControlState {
    fn default() -> (r: Self)
        ensures
            !r.go_home,
            r.light_override is None,
            r.pending_show is None,
            r.pending_alerts@.len() == 0,
            r.pending_pet is None,
            r.pet_idle_secs is None,
            r.pet_last_active is None,
            r.wf(),
    {
        ControlState {
            go_home: false,
            light_override: None,
            pending_show: None,
            pending_alerts: Vec::new(),
            pending_pet: None,
            pet_idle_secs: None,
            pet_last_active: None,
        }
    }
}

/// The control state as plain values.
pub struct ControlStateView {
    pub go_home: bool,
    pub light_override: Option<u8>,
    pub pending_show: Option<(Seq<char>, u64)>,
    /// Each alert as (text, blink, seconds).
    pub pending_alerts: Seq<(Seq<char>, bool, u64)>,
    pub pending_pet: Option<(Seq<char>, u64, Seq<char>, u64)>,
    pub pet_idle_secs: Option<u64>,
    pub pet_last_active: Option<Instant>,
}

impl ControlStateView {
    /// The state before any command or alert: nothing pending, nothing locked.
    pub open spec fn initial() -> ControlStateView {
        ControlStateView {
            go_home: false,
            light_override: None,
            pending_show: None,
            pending_alerts: Seq::empty(),
            pending_pet: None,
            pet_idle_secs: None,
            pet_last_active: None,
        }
    }
}

impl View for ControlState {
    type V = ControlStateView;

    open spec fn view(&self) -> ControlStateView {
        ControlStateView {
            go_home: self.go_home,
            light_override: self.light_override,
            pending_show: show_view(self.pending_show),
            pending_alerts: self.pending_alerts@.map_values(|a: Alert| (a.text@, a.blink, a.secs)),
            pending_pet: pet_view(self.pending_pet),
            pet_idle_secs: self.pet_idle_secs,
            pet_last_active: self.pet_last_active,
        }
    }
}

/// The control state a mutex was created holding (`Mutex::new`'s argument).
/// Writes made later through `lock` happen outside verified code and do not
/// change what the mutex was created with.
pub uninterp spec fn mutex_created_with(m: Mutex<ControlState>) -> ControlStateView;

/// Calls `std::sync::Mutex::new`. Claimed, as its documentation says ("creates
/// a new mutex in an unlocked state ready for use", holding the value given):
/// the mutex is created holding `value`. Nothing is claimed of what it holds
/// after later locks.
#[verifier::external_body]
fn mutex_new(value: ControlState) -> (r: Mutex<ControlState>)
    ensures
        mutex_created_with(r) == value@,
{
    Mutex::new(value)
}

/// A fresh shared control state, holding `ControlState::default()`.
pub fn new_shared() -> (r: SharedControl)
    ensures
        mutex_created_with(*r) == ControlStateView::initial(),
{
    let st = ControlState::default();
    assert(st@.pending_alerts =~= Seq::<(Seq<char>, bool, u64)>::empty());
    assert(st@ == ControlStateView::initial());
    Arc::new(mutex_new(st))
}

// ---------------------------------------------------------------------------
// Pet display specs
// ---------------------------------------------------------------------------

/// What `serde_json` finds under `key` in the JSON text `raw`, when that text
/// parses as a JSON value and the member is a string.
pub uninterp spec fn json_string_member(raw: Seq<char>, key: Seq<char>) -> Option<Seq<char>>;

/// Parses `raw` with `serde_json::from_str::<serde_json::Value>`, looks `key`
/// up with `Value::get` and keeps it if `Value::as_str` gives a string. The
/// result is named `json_string_member`: `None` where the text does not parse,
/// is not an object, lacks the key, or holds a non-string there.
#[verifier::external_body]
fn json_lookup(raw: &str, key: &str) -> (r: Option<String>)
    ensures
        json_string_member(raw@, key@) == (match r {
            Some(s) => Some(s@),
            None => None,
        }),
{
    let v: serde_json::Value = serde_json::from_str(raw).ok()?;
    v.get(key)?.as_str().map(|s| s.to_string())
}

/// The display value that `pet.json` gives a pet state: `None` when the file
/// is missing (`pet_json` is `None`) or has no string under that name.
pub open spec fn resolved_pet(pet_json: Option<Seq<char>>, name: Seq<char>) -> Option<Seq<char>> {
    match pet_json {
        Some(raw) => json_string_member(raw, name),
        None => None,
    }
}

/// Looks a pet state up in the text of `pet.json`.
pub fn resolve_pet(pet_json: Option<&str>, state_name: &str) -> (r: Option<String>)
    ensures
        (match r {
            Some(s) => Some(s@),
            None => None,
        }) == resolved_pet(opt_view(pet_json), state_name@),
{
    match pet_json {
        Some(raw) => json_lookup(raw, state_name),
        None => None,
    }
}

/// The data modules that a pet state may name.
pub open spec fn is_module_name(d: Seq<char>) -> bool {
    d == "cpu"@ || d == "updl"@ || d == "mem"@ || d == "load"@ || d == "time"@ || d == "clock"@
}

/// The scheduler spec for a display value of `pet.json`: an animation file as
/// it is, a data module as `module:<name>` (`clock` shows `timeBlink`), any
/// other value as text.
pub open spec fn pet_spec(d: Seq<char>) -> Seq<char> {
    if ends_with(d, ".bin"@) {
        d
    } else if is_module_name(d) {
        if d == "clock"@ {
            "module:timeBlink"@
        } else {
            "module:"@ + d
        }
    } else {
        "text:"@ + d
    }
}

/// How long a pet request stays on screen: until the next one replaces it.
pub open spec fn pet_secs() -> u64 {
    300
}

/// The scheduler request for a display value of `pet.json`.
pub fn build_pet_request(display: &str) -> (r: (String, u64))
    ensures
        r.0@ == pet_spec(display@),
        r.1 == pet_secs(),
{
    let secs: u64 = 300;
    let spec = if str_ends_with(display, ".bin") {
        String::from_str(display)
    } else if str_eq(display, "cpu") || str_eq(display, "updl") || str_eq(display, "mem")
        || str_eq(display, "load") || str_eq(display, "time") || str_eq(display, "clock") {
        if str_eq(display, "clock") {
            String::from_str("module:timeBlink")
        } else {
            concat2("module:", display)
        }
    } else {
        concat2("text:", display)
    };
    (spec, secs)
}

// ---------------------------------------------------------------------------
// Specification of a command
// ---------------------------------------------------------------------------

/// The command word of a line: its first word after trimming.
pub open spec fn word0(line: Seq<char>) -> Seq<char> {
    before_first(trimmed(line), ' ')
}

/// The second word of a line, if the trimmed line has a space.
pub open spec fn word1(line: Seq<char>) -> Option<Seq<char>> {
    match after_first(trimmed(line), ' ') {
        Some(t) => Some(before_first(t, ' ')),
        None => None,
    }
}

/// Everything after the second space of the trimmed line, if it has one.
pub open spec fn word2(line: Seq<char>) -> Option<Seq<char>> {
    match after_first(trimmed(line), ' ') {
        Some(t) => after_first(t, ' '),
        None => None,
    }
}

pub open spec fn or_empty(o: Option<Seq<char>>) -> Seq<char> {
    match o {
        Some(s) => s,
        None => Seq::empty(),
    }
}

pub open spec fn parsed_opt_u64(o: Option<Seq<char>>) -> Option<u64> {
    match o {
        Some(s) => parsed_u64(s),
        None => None,
    }
}

/// `light <level>`: a level 0-7.
pub open spec fn light_level(a: Seq<char>) -> Option<u8> {
    match parsed_u8(a) {
        Some(l) => if l <= 7 {
            Some(l)
        } else {
            None
        },
        None => None,
    }
}

/// `show <secs> <text>`: 1 to 300 seconds and a text that is not blank.
pub open spec fn show_request(arg: Option<Seq<char>>, rest: Option<Seq<char>>) -> Option<(Seq<char>, u64)> {
    let text = trimmed(or_empty(rest));
    match parsed_opt_u64(arg) {
        Some(secs) => if text.len() > 0 && 1 <= secs <= 300 {
            Some((text, secs))
        } else {
            None
        },
        None => None,
    }
}

/// The pet state that `pet` and `petb` name.
pub open spec fn pet_name(arg: Option<Seq<char>>) -> Seq<char> {
    trimmed(or_empty(arg))
}

/// `petidle <secs>`: at least one second.
pub open spec fn idle_request(arg: Option<Seq<char>>) -> Option<u64> {
    match parsed_opt_u64(arg) {
        Some(s) => if s >= 1 {
            Some(s)
        } else {
            None
        },
        None => None,
    }
}

/// `showraw <spec> <secs>`: a bare module name gets the `module:` prefix.
pub open spec fn raw_spec(spec: Seq<char>) -> Seq<char> {
    if spec.contains(':') || ends_with(spec, ".bin"@) {
        spec
    } else {
        "module:"@ + spec
    }
}

/// The word of `o` before its first space.
pub open spec fn opt_head(o: Option<Seq<char>>) -> Option<Seq<char>> {
    match o {
        Some(t) => Some(before_first(t, ' ')),
        None => None,
    }
}

/// What follows the first space of `o`.
pub open spec fn opt_tail(o: Option<Seq<char>>) -> Option<Seq<char>> {
    match o {
        Some(t) => after_first(t, ' '),
        None => None,
    }
}

/// `showraw <spec> <secs> [mode] [speed]`: the seconds, the first word after
/// the spec as a number (10 if it is not one), clamped to 1-60.
pub open spec fn raw_secs(rest: Option<Seq<char>>) -> u64 {
    let s = match parsed_opt_u64(opt_head(rest)) {
        Some(s) => s,
        None => 10,
    };
    if s < 1 {
        1
    } else if s > 60 {
        60
    } else {
        s
    }
}

/// `showraw` display mode: the word after the seconds, empty if there is none.
pub open spec fn raw_mode(rest: Option<Seq<char>>) -> Seq<char> {
    or_empty(opt_head(opt_tail(rest)))
}

/// `showraw` frame interval: what follows the mode as a number, 0 (the
/// default interval) if it is not one.
pub open spec fn raw_speed(rest: Option<Seq<char>>) -> u64 {
    match parsed_opt_u64(opt_tail(opt_tail(rest))) {
        Some(v) => v,
        None => 0,
    }
}

/// The channel after `next` or `home`: the next one, or channel 1 when asleep.
pub open spec fn advanced(current: i32) -> i32 {
    if current < 0 {
        1
    } else {
        (current + 1) as i32
    }
}

/// The channel after `toggle`: asleep becomes channel 1, awake goes to sleep.
pub open spec fn toggled(current: i32) -> i32 {
    if current < 0 {
        1
    } else {
        -1i32
    }
}

/// A queued show or pet request interrupts the current module when awake.
pub open spec fn nudged(current: i32) -> Option<i32> {
    if current > 0 {
        Some((current + 1) as i32)
    } else {
        None
    }
}

/// The command sends the channel after the current one (`next`, `home`,
/// and a queued show or pet request, which interrupts the current module):
/// it adds 1 to the channel value.
pub open spec fn adds_one(
    cmd: Seq<char>,
    arg: Option<Seq<char>>,
    rest: Option<Seq<char>>,
    display: Option<Seq<char>>,
) -> bool {
    ||| cmd == "next"@
    ||| cmd == "home"@
    ||| cmd == "show"@ && show_request(arg, rest) is Some
    ||| (cmd == "pet"@ || cmd == "petb"@) && pet_name(arg).len() > 0 && display is Some
    ||| cmd == "showraw"@ && pet_name(arg).len() > 0
}

/// The `ERR` line for an unknown command.
pub open spec fn unknown_reply(cmd: Seq<char>) -> Seq<char> {
    "ERR 未知指令: "@ + cmd + " (可用: next/home/off/wake/toggle/light/show/ping/pet/petb/petidle)"@
}

/// The reply to a command with its arguments; `display` is what `pet.json`
/// gives the pet state named (for `pet` and `petb`).
pub open spec fn reply_for(
    cmd: Seq<char>,
    arg: Option<Seq<char>>,
    rest: Option<Seq<char>>,
    display: Option<Seq<char>>,
) -> Seq<char> {
    if cmd == "ping"@ {
        "PONG"@
    } else if cmd == "next"@ || cmd == "home"@ || cmd == "off"@ || cmd == "sleep"@ || cmd
        == "wake"@ || cmd == "toggle"@ {
        "OK"@
    } else if cmd == "light"@ {
        match arg {
            None => "ERR 用法: light <0-7|auto>"@,
            Some(a) => if a == "auto"@ || light_level(a) is Some {
                "OK"@
            } else {
                "ERR light 参数需为 0-7 或 auto"@
            },
        }
    } else if cmd == "show"@ {
        if show_request(arg, rest) is Some {
            "OK"@
        } else {
            "ERR 用法: show <1-300秒> <文本>"@
        }
    } else if cmd == "pet"@ || cmd == "petb"@ {
        if pet_name(arg).len() == 0 {
            if cmd == "pet"@ {
                "ERR 用法: pet <状态名>"@
            } else {
                "ERR 用法: petb <状态名>"@
            }
        } else if display is None {
            "ERR 未知宠物状态: "@ + pet_name(arg)
        } else {
            "OK"@
        }
    } else if cmd == "petidle"@ {
        if idle_request(arg) is Some {
            "OK"@
        } else {
            "ERR 用法: petidle <1-N秒>"@
        }
    } else if cmd == "showraw"@ {
        if pet_name(arg).len() == 0 {
            "ERR 用法: showraw <spec> <秒数> [mode] [speed]"@
        } else {
            "OK"@
        }
    } else if cmd.len() == 0 {
        "ERR 空指令"@
    } else {
        unknown_reply(cmd)
    }
}

/// The value a command sends on the channel watch, given the value it holds.
pub open spec fn send_for(
    cmd: Seq<char>,
    arg: Option<Seq<char>>,
    rest: Option<Seq<char>>,
    display: Option<Seq<char>>,
    current: i32,
) -> Option<i32> {
    if cmd == "ping"@ {
        None
    } else if cmd == "next"@ || cmd == "home"@ {
        Some(advanced(current))
    } else if cmd == "off"@ || cmd == "sleep"@ {
        Some(-1i32)
    } else if cmd == "wake"@ {
        Some(1)
    } else if cmd == "toggle"@ {
        Some(toggled(current))
    } else if cmd == "light"@ {
        None
    } else if cmd == "show"@ {
        if show_request(arg, rest) is Some {
            nudged(current)
        } else {
            None
        }
    } else if cmd == "pet"@ || cmd == "petb"@ {
        if pet_name(arg).len() > 0 && display is Some {
            nudged(current)
        } else {
            None
        }
    } else if cmd == "petidle"@ {
        None
    } else if cmd == "showraw"@ {
        if pet_name(arg).len() > 0 {
            nudged(current)
        } else {
            None
        }
    } else {
        None
    }
}

pub open spec fn show_view(p: Option<(String, u64)>) -> Option<(Seq<char>, u64)> {
    match p {
        Some(x) => Some((x.0@, x.1)),
        None => None,
    }
}

pub open spec fn pet_view(p: Option<(String, u64, String, u64)>) -> Option<(Seq<char>, u64, Seq<char>, u64)> {
    match p {
        Some(x) => Some((x.0@, x.1, x.2@, x.3)),
        None => None,
    }
}

/// `n` is `o` with at most the fields flagged changed.
pub open spec fn same_except(
    o: ControlState,
    n: ControlState,
    home: bool,
    light: bool,
    show: bool,
    pet: bool,
    idle: bool,
) -> bool {
    &&& (!home ==> n.go_home == o.go_home)
    &&& (!light ==> n.light_override == o.light_override)
    &&& (!show ==> n.pending_show == o.pending_show)
    &&& n.pending_alerts == o.pending_alerts
    &&& (!pet ==> n.pending_pet == o.pending_pet && n.pet_last_active == o.pet_last_active)
    &&& (!idle ==> n.pet_idle_secs == o.pet_idle_secs)
}

/// How a command changes the control state `o` into `n`; `banner` is the
/// announcement `petb` shows first.
pub open spec fn state_after(
    o: ControlState,
    n: ControlState,
    cmd: Seq<char>,
    arg: Option<Seq<char>>,
    rest: Option<Seq<char>>,
    display: Option<Seq<char>>,
    banner: Seq<char>,
    now: Instant,
) -> bool {
    if cmd == "ping"@ {
        same_except(o, n, false, false, false, false, false)
    } else if cmd == "next"@ {
        same_except(o, n, false, false, false, false, false)
    } else if cmd == "home"@ {
        same_except(o, n, true, false, false, false, false) && n.go_home
    } else if cmd == "off"@ || cmd == "sleep"@ || cmd == "wake"@ || cmd == "toggle"@ {
        same_except(o, n, false, false, false, false, false)
    } else if cmd == "light"@ {
        match arg {
            Some(a) => if a == "auto"@ {
                same_except(o, n, false, true, false, false, false) && n.light_override is None
            } else {
                match light_level(a) {
                    Some(l) => same_except(o, n, false, true, false, false, false)
                        && n.light_override == Some(l),
                    None => same_except(o, n, false, false, false, false, false),
                }
            },
            None => same_except(o, n, false, false, false, false, false),
        }
    } else if cmd == "show"@ {
        match show_request(arg, rest) {
            Some(req) => same_except(o, n, false, false, true, false, false) && show_view(
                n.pending_show,
            ) == Some(req),
            None => same_except(o, n, false, false, false, false, false),
        }
    } else if cmd == "pet"@ || cmd == "petb"@ {
        match display {
            Some(d) => if pet_name(arg).len() > 0 {
                &&& same_except(o, n, false, false, cmd == "petb"@, true, false)
                &&& pet_view(n.pending_pet) == Some((pet_spec(d), pet_secs(), Seq::<char>::empty(), 0u64))
                &&& n.pet_last_active == Some(now)
                &&& (cmd == "petb"@ ==> show_view(n.pending_show) == Some((banner, 2u64)))
            } else {
                same_except(o, n, false, false, false, false, false)
            },
            None => same_except(o, n, false, false, false, false, false),
        }
    } else if cmd == "petidle"@ {
        match idle_request(arg) {
            Some(s) => same_except(o, n, false, false, false, false, true) && n.pet_idle_secs
                == Some(s),
            None => same_except(o, n, false, false, false, false, false),
        }
    } else if cmd == "showraw"@ {
        if pet_name(arg).len() > 0 {
            &&& same_except(o, n, false, false, false, true, false)
            &&& pet_view(n.pending_pet) == Some(
                (raw_spec(pet_name(arg)), raw_secs(rest), raw_mode(rest), raw_speed(rest)),
            )
            &&& n.pet_last_active == Some(now)
        } else {
            same_except(o, n, false, false, false, false, false)
        }
    } else {
        same_except(o, n, false, false, false, false, false)
    }
}

// ---------------------------------------------------------------------------
// Execution
// ---------------------------------------------------------------------------

fn ok_reply() -> (r: String)
    ensures
        r@ == "OK"@,
{
    String::from_str("OK")
}

fn advance(current: i32) -> (r: i32)
    requires
        current < i32::MAX,
    ensures
        r == advanced(current),
{
    if current < 0 {
        1
    } else {
        current + 1
    }
}

fn nudge(current: i32) -> (r: Option<i32>)
    requires
        current < i32::MAX,
    ensures
        r == nudged(current),
{
    if current > 0 {
        Some(current + 1)
    } else {
        None
    }
}

fn parse_opt_u64(o: Option<&str>) -> (r: Option<u64>)
    ensures
        r == parsed_opt_u64(opt_view(o)),
{
    match o {
        Some(s) => parse_u64(s),
        None => None,
    }
}

fn or_empty_str(o: Option<&str>) -> (r: &str)
    ensures
        r@ == or_empty(opt_view(o)),
{
    match o {
        Some(s) => s,
        None => {
            let e = "";
            proof {
                reveal_strlit("");
            }
            assert(e@ =~= Seq::<char>::empty());
            e
        },
    }
}

/// Carries out one command whose word has already been lower-cased: `cmd`
/// is the command, `arg` the next word, `rest` the remainder of the line;
/// `display` is what `pet.json` gives the pet state named and `banner` the
/// announcement `petb` shows. Returns the reply and the value to send on the
/// channel watch, if any.
pub fn run_command(
    cmd: &str,
    arg: Option<&str>,
    rest: Option<&str>,
    display: Option<String>,
    banner: String,
    current: i32,
    state: &mut ControlState,
    now: Instant,
) -> (out: (String, Option<i32>))
    requires
        current == i32::MAX ==> !adds_one(
            cmd@,
            opt_view(arg),
            opt_view(rest),
            match display {
                Some(d) => Some(d@),
                None => None,
            },
        ),
    ensures
        out.0@ == reply_for(
            cmd@,
            opt_view(arg),
            opt_view(rest),
            match display {
                Some(d) => Some(d@),
                None => None,
            },
        ),
        out.1 == send_for(
            cmd@,
            opt_view(arg),
            opt_view(rest),
            match display {
                Some(d) => Some(d@),
                None => None,
            },
            current,
        ),
        state_after(
            *old(state),
            *final(state),
            cmd@,
            opt_view(arg),
            opt_view(rest),
            match display {
                Some(d) => Some(d@),
                None => None,
            },
            banner@,
            now,
        ),
{
    if str_eq(cmd, "ping") {
        return (String::from_str("PONG"), None);
    }
    if str_eq(cmd, "next") {
        return (ok_reply(), Some(advance(current)));
    }
    if str_eq(cmd, "home") {
        state.go_home = true;
        return (ok_reply(), Some(advance(current)));
    }
    if str_eq(cmd, "off") || str_eq(cmd, "sleep") {
        return (ok_reply(), Some(-1));
    }
    if str_eq(cmd, "wake") {
        return (ok_reply(), Some(1));
    }
    if str_eq(cmd, "toggle") {
        let next = if current < 0 {
            1
        } else {
            -1
        };
        return (ok_reply(), Some(next));
    }
    if str_eq(cmd, "light") {
        match arg {
            None => {
                return (String::from_str("ERR 用法: light <0-7|auto>"), None);
            },
            Some(a) => {
                if str_eq(a, "auto") {
                    state.light_override = None;
                    return (ok_reply(), None);
                }
                match parse_u8(a) {
                    Some(level) => {
                        if level <= 7 {
                            state.light_override = Some(level);
                            return (ok_reply(), None);
                        }
                    },
                    None => {},
                }
                return (String::from_str("ERR light 参数需为 0-7 或 auto"), None);
            },
        }
    }
    if str_eq(cmd, "show") {
        let secs = parse_opt_u64(arg);
        let text = trim(or_empty_str(rest));
        match secs {
            Some(secs) => {
                if text.unicode_len() > 0 && 1 <= secs && secs <= 300 {
                    state.pending_show = Some((String::from_str(text), secs));
                    return (ok_reply(), nudge(current));
                }
            },
            None => {},
        }
        return (String::from_str("ERR 用法: show <1-300秒> <文本>"), None);
    }
    if str_eq(cmd, "pet") || str_eq(cmd, "petb") {
        let name = trim(or_empty_str(arg));
        if name.unicode_len() == 0 {
            if str_eq(cmd, "pet") {
                return (String::from_str("ERR 用法: pet <状态名>"), None);
            } else {
                return (String::from_str("ERR 用法: petb <状态名>"), None);
            }
        }
        match display {
            None => {
                return (concat2("ERR 未知宠物状态: ", name), None);
            },
            Some(d) => {
                if str_eq(cmd, "petb") {
                    state.pending_show = Some((banner, 2));
                }
                let (spec, secs) = build_pet_request(d.as_str());
                state.pending_pet = Some((spec, secs, String::new(), 0));
                state.pet_last_active = Some(now);
                return (ok_reply(), nudge(current));
            },
        }
    }
    if str_eq(cmd, "petidle") {
        match parse_opt_u64(arg) {
            Some(s) => {
                if s >= 1 {
                    state.pet_idle_secs = Some(s);
                    return (ok_reply(), None);
                }
            },
            None => {},
        }
        return (String::from_str("ERR 用法: petidle <1-N秒>"), None);
    }
    if str_eq(cmd, "showraw") {
        let spec = trim(or_empty_str(arg));
        if spec.unicode_len() == 0 {
            return (String::from_str("ERR 用法: showraw <spec> <秒数> [mode] [speed]"), None);
        }
        let (secs_word, after): (Option<&str>, Option<&str>) = match rest {
            Some(r) => {
                let (a, b) = split_first(r, ' ');
                (Some(a), b)
            },
            None => (None, None),
        };
        let (mode_word, speed_text): (Option<&str>, Option<&str>) = match after {
            Some(a) => {
                let (m, sp) = split_first(a, ' ');
                (Some(m), sp)
            },
            None => (None, None),
        };
        let secs = match parse_opt_u64(secs_word) {
            Some(s) => s,
            None => 10,
        };
        let speed = match parse_opt_u64(speed_text) {
            Some(v) => v,
            None => 0,
        };
        let mode = String::from_str(or_empty_str(mode_word));
        let secs = if secs < 1 {
            1
        } else if secs > 60 {
            60
        } else {
            secs
        };
        let norm = if str_has_char(spec, ':') || str_ends_with(spec, ".bin") {
            String::from_str(spec)
        } else {
            concat2("module:", spec)
        };
        state.pending_pet = Some((norm, secs, mode, speed));
        state.pet_last_active = Some(now);
        return (ok_reply(), nudge(current));
    }
    if cmd.unicode_len() == 0 {
        return (String::from_str("ERR 空指令"), None);
    }
    (
        concat3(
            "ERR 未知指令: ",
            cmd,
            " (可用: next/home/off/wake/toggle/light/show/ping/pet/petb/petidle)",
        ),
        None,
    )
}


/// The lower-cased command word of a line.
pub open spec fn line_cmd(line: Seq<char>) -> Seq<char> {
    lowercase(word0(line))
}

/// What `pet.json` gives the pet state a command names; only `pet` and
/// `petb` look it up.
pub open spec fn display_for(cmd: Seq<char>, pet_json: Option<Seq<char>>, name: Seq<char>) -> Option<Seq<char>> {
    if cmd == "pet"@ || cmd == "petb"@ {
        resolved_pet(pet_json, name)
    } else {
        None
    }
}

/// The announcement of `petb`: the pet state's name in upper case.
pub open spec fn banner_for(cmd: Seq<char>, name: Seq<char>) -> Seq<char> {
    if cmd == "petb"@ {
        uppercase(name)
    } else {
        Seq::empty()
    }
}

/// Splits a line into its lower-cased command, the next word and the rest,
/// and looks up what `pet` and `petb` need: the `pet.json` display value and
/// the upper-cased announcement.
fn parse_line<'a>(line: &'a str, pet_json: Option<&str>) -> (r: (
    String,
    Option<&'a str>,
    Option<&'a str>,
    Option<String>,
    String,
))
    ensures
        r.0@ == line_cmd(line@),
        opt_view(r.1) == word1(line@),
        opt_view(r.2) == word2(line@),
        (match r.3 {
            Some(d) => Some(d@),
            None => None,
        }) == display_for(line_cmd(line@), opt_view(pet_json), pet_name(word1(line@))),
        r.4@ == banner_for(line_cmd(line@), pet_name(word1(line@))),
        is_ascii_text(word0(line@)) ==> line_cmd(line@) == word0(line@).map_values(
            |c: char| ascii_lower(c),
        ),
        is_ascii_text(pet_name(word1(line@))) ==> uppercase(pet_name(word1(line@)))
            == pet_name(word1(line@)).map_values(|c: char| ascii_upper(c)),
{
    let t = trim(line);
    let (w0, tail) = split_first(t, ' ');
    let (arg, rest): (Option<&str>, Option<&str>) = match tail {
        Some(tl) => {
            let (a, r) = split_first(tl, ' ');
            (Some(a), r)
        },
        None => (None, None),
    };
    assert(opt_view(arg) == word1(line@));
    assert(opt_view(rest) == word2(line@));
    let cmd = to_lower(w0);
    let name = trim(or_empty_str(arg));
    let upper = to_upper(name);
    let wants_pet = str_eq(cmd.as_str(), "pet") || str_eq(cmd.as_str(), "petb");
    let display = if wants_pet {
        resolve_pet(pet_json, name)
    } else {
        None
    };
    let banner = if str_eq(cmd.as_str(), "petb") {
        upper
    } else {
        String::new()
    };
    (cmd, arg, rest, display, banner)
}

/// Whether a command adds 1 to the channel (`adds_one`).
fn command_adds_one(
    cmd: &str,
    arg: Option<&str>,
    rest: Option<&str>,
    display: &Option<String>,
) -> (r: bool)
    ensures
        r == adds_one(
            cmd@,
            opt_view(arg),
            opt_view(rest),
            match display {
                Some(d) => Some(d@),
                None => None,
            },
        ),
{
    if str_eq(cmd, "next") || str_eq(cmd, "home") {
        return true;
    }
    if str_eq(cmd, "show") {
        let text = trim(or_empty_str(rest));
        match parse_opt_u64(arg) {
            Some(secs) => {
                if text.unicode_len() > 0 && 1 <= secs && secs <= 300 {
                    return true;
                }
            },
            None => {},
        }
    }
    let named = trim(or_empty_str(arg)).unicode_len() > 0;
    if (str_eq(cmd, "pet") || str_eq(cmd, "petb")) && named && display.is_some() {
        return true;
    }
    str_eq(cmd, "showraw") && named
}

/// Handles one line of the control protocol. `current` is the value the
/// channel watch holds, `pet_json` the text of `pet.json` (`None` when it
/// cannot be read) and `now` the time of the request. Returns the reply and
/// the value to send on the channel watch, if any; writes `state`.
pub fn handle_command(
    line: &str,
    current: i32,
    state: &mut ControlState,
    pet_json: Option<&str>,
    now: Instant,
) -> (out: (String, Option<i32>))
    requires
        current == i32::MAX ==> !adds_one(
            line_cmd(line@),
            word1(line@),
            word2(line@),
            display_for(line_cmd(line@), opt_view(pet_json), pet_name(word1(line@))),
        ),
    ensures
        out.0@ == reply_for(
            line_cmd(line@),
            word1(line@),
            word2(line@),
            display_for(line_cmd(line@), opt_view(pet_json), pet_name(word1(line@))),
        ),
        out.1 == send_for(
            line_cmd(line@),
            word1(line@),
            word2(line@),
            display_for(line_cmd(line@), opt_view(pet_json), pet_name(word1(line@))),
            current,
        ),
        state_after(
            *old(state),
            *final(state),
            line_cmd(line@),
            word1(line@),
            word2(line@),
            display_for(line_cmd(line@), opt_view(pet_json), pet_name(word1(line@))),
            banner_for(line_cmd(line@), pet_name(word1(line@))),
            now,
        ),
        old(state).wf() ==> final(state).wf(),
        is_ascii_text(word0(line@)) ==> line_cmd(line@) == word0(line@).map_values(
            |c: char| ascii_lower(c),
        ),
        is_ascii_text(pet_name(word1(line@))) ==> uppercase(pet_name(word1(line@)))
            == pet_name(word1(line@)).map_values(|c: char| ascii_upper(c)),
{
    let (cmd, arg, rest, display, banner) = parse_line(line, pet_json);
    let ghost name = pet_name(word1(line@));
    let ghost old_state = *old(state);
    let out = run_command(cmd.as_str(), arg, rest, display, banner, current, state, now);
    proof {
        if old_state.wf() {
            lemma_command_keeps_wf(
            old_state,
            *state,
            cmd@,
            opt_view(arg),
            opt_view(rest),
            display_for(cmd@, opt_view(pet_json), name),
                banner@,
                now,
            );
        }
    }
    out
}

/// Handles one line unless that would overflow the channel: `None` exactly
/// when the channel is at `i32::MAX` and the command would add 1 to it,
/// leaving the state as it was; otherwise what `handle_command` returns.
pub fn try_handle_command(
    line: &str,
    current: i32,
    state: &mut ControlState,
    pet_json: Option<&str>,
    now: Instant,
) -> (out: Option<(String, Option<i32>)>)
    ensures
        out is None <==> (current == i32::MAX && adds_one(
            line_cmd(line@),
            word1(line@),
            word2(line@),
            display_for(line_cmd(line@), opt_view(pet_json), pet_name(word1(line@))),
        )),
        out is None ==> *final(state) == *old(state),
        out matches Some(o) ==> {
            &&& o.0@ == reply_for(
                line_cmd(line@),
                word1(line@),
                word2(line@),
                display_for(line_cmd(line@), opt_view(pet_json), pet_name(word1(line@))),
            )
            &&& o.1 == send_for(
                line_cmd(line@),
                word1(line@),
                word2(line@),
                display_for(line_cmd(line@), opt_view(pet_json), pet_name(word1(line@))),
                current,
            )
            &&& state_after(
                *old(state),
                *final(state),
                line_cmd(line@),
                word1(line@),
                word2(line@),
                display_for(line_cmd(line@), opt_view(pet_json), pet_name(word1(line@))),
                banner_for(line_cmd(line@), pet_name(word1(line@))),
                now,
            )
            &&& (old(state).wf() ==> final(state).wf())
        },
        is_ascii_text(word0(line@)) ==> line_cmd(line@) == word0(line@).map_values(
            |c: char| ascii_lower(c),
        ),
        is_ascii_text(pet_name(word1(line@))) ==> uppercase(pet_name(word1(line@)))
            == pet_name(word1(line@)).map_values(|c: char| ascii_upper(c)),
{
    if current == i32::MAX {
        let (cmd, arg, rest, display, _banner) = parse_line(line, pet_json);
        if command_adds_one(cmd.as_str(), arg, rest, &display) {
            return None;
        }
    }
    Some(handle_command(line, current, state, pet_json, now))
}

// ---------------------------------------------------------------------------
// Laws
// ---------------------------------------------------------------------------

/// Every command keeps the control state well formed: the brightness stays a
/// level 0-7, shows and pet requests last 1-300 seconds, the idle timeout is
/// at least one second.
pub proof fn lemma_command_keeps_wf(
    o: ControlState,
    n: ControlState,
    cmd: Seq<char>,
    arg: Option<Seq<char>>,
    rest: Option<Seq<char>>,
    display: Option<Seq<char>>,
    banner: Seq<char>,
    now: Instant,
)
    requires
        o.wf(),
        state_after(o, n, cmd, arg, rest, display, banner, now),
    ensures
        n.wf(),
{
}

/// `toggle` twice puts the screen back to sleep if it slept and wakes it if
/// it was awake: the on/off state is restored.
pub proof fn lemma_toggle_twice(current: i32)
    ensures
        (toggled(toggled(current)) < 0) == (current < 0),
        (toggled(current) < 0) != (current < 0),
{
}

/// `next` and `home` always leave the screen awake, on the channel after the
/// current one or on channel 1 when it slept.
pub proof fn lemma_advance_wakes(current: i32)
    requires
        current < i32::MAX,
    ensures
        advanced(current) > 0,
        current >= 0 ==> advanced(current) == current + 1,
{
}

/// The command words are pairwise different.
proof fn lemma_command_words_distinct()
    ensures
        "ping"@ != "next"@,
        "ping"@ != "home"@,
        "ping"@ != "off"@,
        "ping"@ != "sleep"@,
        "ping"@ != "wake"@,
        "ping"@ != "toggle"@,
        "ping"@ != "light"@,
        "ping"@ != "show"@,
        "ping"@ != "pet"@,
        "ping"@ != "petb"@,
        "ping"@ != "petidle"@,
        "ping"@ != "showraw"@,
        "next"@ != "home"@,
        "next"@ != "off"@,
        "next"@ != "sleep"@,
        "next"@ != "wake"@,
        "next"@ != "toggle"@,
        "next"@ != "light"@,
        "next"@ != "show"@,
        "next"@ != "pet"@,
        "next"@ != "petb"@,
        "next"@ != "petidle"@,
        "next"@ != "showraw"@,
        "home"@ != "off"@,
        "home"@ != "sleep"@,
        "home"@ != "wake"@,
        "home"@ != "toggle"@,
        "home"@ != "light"@,
        "home"@ != "show"@,
        "home"@ != "pet"@,
        "home"@ != "petb"@,
        "home"@ != "petidle"@,
        "home"@ != "showraw"@,
        "off"@ != "sleep"@,
        "off"@ != "wake"@,
        "off"@ != "toggle"@,
        "off"@ != "light"@,
        "off"@ != "show"@,
        "off"@ != "pet"@,
        "off"@ != "petb"@,
        "off"@ != "petidle"@,
        "off"@ != "showraw"@,
        "sleep"@ != "wake"@,
        "sleep"@ != "toggle"@,
        "sleep"@ != "light"@,
        "sleep"@ != "show"@,
        "sleep"@ != "pet"@,
        "sleep"@ != "petb"@,
        "sleep"@ != "petidle"@,
        "sleep"@ != "showraw"@,
        "wake"@ != "toggle"@,
        "wake"@ != "light"@,
        "wake"@ != "show"@,
        "wake"@ != "pet"@,
        "wake"@ != "petb"@,
        "wake"@ != "petidle"@,
        "wake"@ != "showraw"@,
        "toggle"@ != "light"@,
        "toggle"@ != "show"@,
        "toggle"@ != "pet"@,
        "toggle"@ != "petb"@,
        "toggle"@ != "petidle"@,
        "toggle"@ != "showraw"@,
        "light"@ != "show"@,
        "light"@ != "pet"@,
        "light"@ != "petb"@,
        "light"@ != "petidle"@,
        "light"@ != "showraw"@,
        "show"@ != "pet"@,
        "show"@ != "petb"@,
        "show"@ != "petidle"@,
        "show"@ != "showraw"@,
        "pet"@ != "petb"@,
        "pet"@ != "petidle"@,
        "pet"@ != "showraw"@,
        "petb"@ != "petidle"@,
        "petb"@ != "showraw"@,
        "petidle"@ != "showraw"@,
{
    reveal_strlit("home");
    reveal_strlit("light");
    reveal_strlit("next");
    reveal_strlit("off");
    reveal_strlit("pet");
    reveal_strlit("petb");
    reveal_strlit("petidle");
    reveal_strlit("ping");
    reveal_strlit("show");
    reveal_strlit("showraw");
    reveal_strlit("sleep");
    reveal_strlit("toggle");
    reveal_strlit("wake");
    assert("ping"@[0] != "next"@[0]);
    assert("ping"@[0] != "home"@[0]);
    assert("ping"@.len() != "off"@.len());
    assert("ping"@.len() != "sleep"@.len());
    assert("ping"@[0] != "wake"@[0]);
    assert("ping"@.len() != "toggle"@.len());
    assert("ping"@.len() != "light"@.len());
    assert("ping"@[0] != "show"@[0]);
    assert("ping"@.len() != "pet"@.len());
    assert("ping"@[1] != "petb"@[1]);
    assert("ping"@.len() != "petidle"@.len());
    assert("ping"@.len() != "showraw"@.len());
    assert("next"@[0] != "home"@[0]);
    assert("next"@.len() != "off"@.len());
    assert("next"@.len() != "sleep"@.len());
    assert("next"@[0] != "wake"@[0]);
    assert("next"@.len() != "toggle"@.len());
    assert("next"@.len() != "light"@.len());
    assert("next"@[0] != "show"@[0]);
    assert("next"@.len() != "pet"@.len());
    assert("next"@[0] != "petb"@[0]);
    assert("next"@.len() != "petidle"@.len());
    assert("next"@.len() != "showraw"@.len());
    assert("home"@.len() != "off"@.len());
    assert("home"@.len() != "sleep"@.len());
    assert("home"@[0] != "wake"@[0]);
    assert("home"@.len() != "toggle"@.len());
    assert("home"@.len() != "light"@.len());
    assert("home"@[0] != "show"@[0]);
    assert("home"@.len() != "pet"@.len());
    assert("home"@[0] != "petb"@[0]);
    assert("home"@.len() != "petidle"@.len());
    assert("home"@.len() != "showraw"@.len());
    assert("off"@.len() != "sleep"@.len());
    assert("off"@.len() != "wake"@.len());
    assert("off"@.len() != "toggle"@.len());
    assert("off"@.len() != "light"@.len());
    assert("off"@.len() != "show"@.len());
    assert("off"@[0] != "pet"@[0]);
    assert("off"@.len() != "petb"@.len());
    assert("off"@.len() != "petidle"@.len());
    assert("off"@.len() != "showraw"@.len());
    assert("sleep"@.len() != "wake"@.len());
    assert("sleep"@.len() != "toggle"@.len());
    assert("sleep"@[0] != "light"@[0]);
    assert("sleep"@.len() != "show"@.len());
    assert("sleep"@.len() != "pet"@.len());
    assert("sleep"@.len() != "petb"@.len());
    assert("sleep"@.len() != "petidle"@.len());
    assert("sleep"@.len() != "showraw"@.len());
    assert("wake"@.len() != "toggle"@.len());
    assert("wake"@.len() != "light"@.len());
    assert("wake"@[0] != "show"@[0]);
    assert("wake"@.len() != "pet"@.len());
    assert("wake"@[0] != "petb"@[0]);
    assert("wake"@.len() != "petidle"@.len());
    assert("wake"@.len() != "showraw"@.len());
    assert("toggle"@.len() != "light"@.len());
    assert("toggle"@.len() != "show"@.len());
    assert("toggle"@.len() != "pet"@.len());
    assert("toggle"@.len() != "petb"@.len());
    assert("toggle"@.len() != "petidle"@.len());
    assert("toggle"@.len() != "showraw"@.len());
    assert("light"@.len() != "show"@.len());
    assert("light"@.len() != "pet"@.len());
    assert("light"@.len() != "petb"@.len());
    assert("light"@.len() != "petidle"@.len());
    assert("light"@.len() != "showraw"@.len());
    assert("show"@.len() != "pet"@.len());
    assert("show"@[0] != "petb"@[0]);
    assert("show"@.len() != "petidle"@.len());
    assert("show"@.len() != "showraw"@.len());
    assert("pet"@.len() != "petb"@.len());
    assert("pet"@.len() != "petidle"@.len());
    assert("pet"@.len() != "showraw"@.len());
    assert("petb"@.len() != "petidle"@.len());
    assert("petb"@.len() != "showraw"@.len());
    assert("petidle"@[0] != "showraw"@[0]);
}

/// The data-module names are pairwise different.
proof fn lemma_module_names_distinct()
    ensures
        "cpu"@ != "updl"@,
        "cpu"@ != "mem"@,
        "cpu"@ != "load"@,
        "cpu"@ != "time"@,
        "cpu"@ != "clock"@,
        "updl"@ != "mem"@,
        "updl"@ != "load"@,
        "updl"@ != "time"@,
        "updl"@ != "clock"@,
        "mem"@ != "load"@,
        "mem"@ != "time"@,
        "mem"@ != "clock"@,
        "load"@ != "time"@,
        "load"@ != "clock"@,
        "time"@ != "clock"@,
{
    reveal_strlit("clock");
    reveal_strlit("cpu");
    reveal_strlit("load");
    reveal_strlit("mem");
    reveal_strlit("time");
    reveal_strlit("updl");
    assert("cpu"@.len() != "updl"@.len());
    assert("cpu"@[0] != "mem"@[0]);
    assert("cpu"@.len() != "load"@.len());
    assert("cpu"@.len() != "time"@.len());
    assert("cpu"@.len() != "clock"@.len());
    assert("updl"@.len() != "mem"@.len());
    assert("updl"@[0] != "load"@[0]);
    assert("updl"@[0] != "time"@[0]);
    assert("updl"@.len() != "clock"@.len());
    assert("mem"@.len() != "load"@.len());
    assert("mem"@.len() != "time"@.len());
    assert("mem"@.len() != "clock"@.len());
    assert("load"@[0] != "time"@[0]);
    assert("load"@.len() != "clock"@.len());
    assert("time"@.len() != "clock"@.len());
}

/// The module names do not end in `.bin`.
proof fn lemma_module_names_not_bin(d: Seq<char>)
    requires
        is_module_name(d),
    ensures
        !ends_with(d, ".bin"@),
{
    reveal_strlit(".bin");
    reveal_strlit("cpu");
    reveal_strlit("updl");
    reveal_strlit("mem");
    reveal_strlit("load");
    reveal_strlit("time");
    reveal_strlit("clock");
    if ends_with(d, ".bin"@) {
        let t = d.skip(d.len() - 4);
        assert(t == ".bin"@);
        assert(t[0] == d[d.len() - 4]);
        assert(".bin"@[0] == '.');
        if d == "updl"@ || d == "load"@ || d == "time"@ {
            assert(d[0] != '.');
        } else if d == "clock"@ {
            assert(d[1] != '.');
        }
    }
}

/// A pet state that names a data module shows that module's data: `cpu`,
/// `updl`, `mem`, `load` and `time` become `module:<name>`, `clock` becomes
/// `module:timeBlink`; a `.bin` value plays as an animation; any other value
/// is shown as text; every request lasts 300 seconds.
pub proof fn law_pet_request(d: Seq<char>)
    ensures
        (d == "cpu"@ || d == "updl"@ || d == "mem"@ || d == "load"@ || d == "time"@)
            ==> pet_spec(d) == "module:"@ + d,
        d == "clock"@ ==> pet_spec(d) == "module:timeBlink"@,
        ends_with(d, ".bin"@) ==> pet_spec(d) == d,
        (!ends_with(d, ".bin"@) && d != "cpu"@ && d != "updl"@ && d != "mem"@ && d != "load"@
            && d != "time"@ && d != "clock"@) ==> pet_spec(d) == "text:"@ + d,
        pet_secs() == 300,
{
    lemma_module_names_distinct();
    if is_module_name(d) {
        lemma_module_names_not_bin(d);
    }
}

/// `petidle N` accepts any timeout of at least one second: it replies `OK`,
/// sends nothing and sets the idle timeout to `N`; a missing, unreadable or
/// zero value is refused with the usage line and changes nothing.
pub proof fn law_petidle(
    o: ControlState,
    n: ControlState,
    arg: Option<Seq<char>>,
    rest: Option<Seq<char>>,
    display: Option<Seq<char>>,
    banner: Seq<char>,
    now: Instant,
    current: i32,
)
    requires
        state_after(o, n, "petidle"@, arg, rest, display, banner, now),
    ensures
        send_for("petidle"@, arg, rest, display, current) is None,
        forall|s: Seq<char>, v: u64|
            arg == Some(s) && parsed_u64(s) == Some(v) && v >= 1 ==> {
                &&& reply_for("petidle"@, arg, rest, display) == "OK"@
                &&& n.pet_idle_secs == Some(v)
                &&& n.light_override == o.light_override
                &&& n.pending_show == o.pending_show
                &&& n.pending_pet == o.pending_pet
            },
        (match arg {
            Some(s) => parsed_u64(s) is None || parsed_u64(s) == Some(0u64),
            None => true,
        }) ==> {
            &&& reply_for("petidle"@, arg, rest, display) == "ERR 用法: petidle <1-N秒>"@
            &&& n.pet_idle_secs == o.pet_idle_secs
        },
{
    lemma_command_words_distinct();
}

/// Every accepted command that queues a show or a pet request (`show`,
/// `pet`, `petb`, `showraw`) interrupts the current module while the screen
/// is awake: it sends the channel after the current one; asleep, it sends
/// nothing.
pub proof fn law_queued_requests_interrupt(
    current: i32,
    arg: Option<Seq<char>>,
    rest: Option<Seq<char>>,
    display: Option<Seq<char>>,
)
    requires
        current < i32::MAX,
    ensures
        show_request(arg, rest) is Some ==> send_for("show"@, arg, rest, display, current) == (
        if current > 0 {
            Some((current + 1) as i32)
        } else {
            None
        }),
        pet_name(arg).len() > 0 && display is Some ==> {
            &&& send_for("pet"@, arg, rest, display, current) == (if current > 0 {
                Some((current + 1) as i32)
            } else {
                None
            })
            &&& send_for("petb"@, arg, rest, display, current) == send_for(
                "pet"@,
                arg,
                rest,
                display,
                current,
            )
            &&& reply_for("pet"@, arg, rest, display) == "OK"@
            &&& reply_for("petb"@, arg, rest, display) == "OK"@
        },
        pet_name(arg).len() > 0 ==> send_for("showraw"@, arg, rest, display, current) == (
        if current > 0 {
            Some((current + 1) as i32)
        } else {
            None
        }),
{
    lemma_command_words_distinct();
}

/// `petb` does what `pet` does to the same state and also queues the
/// upper-cased name as a 2-second announcement; `pet` leaves the queued
/// show alone.
pub proof fn law_petb_is_pet_with_banner(
    o: ControlState,
    n_pet: ControlState,
    n_petb: ControlState,
    arg: Option<Seq<char>>,
    rest: Option<Seq<char>>,
    display: Option<Seq<char>>,
    banner: Seq<char>,
    now: Instant,
)
    requires
        pet_name(arg).len() > 0,
        display is Some,
        state_after(o, n_pet, "pet"@, arg, rest, display, banner, now),
        state_after(o, n_petb, "petb"@, arg, rest, display, banner, now),
    ensures
        pet_view(n_petb.pending_pet) == pet_view(n_pet.pending_pet),
        pet_view(n_pet.pending_pet) == Some(
            (pet_spec(display->0), 300u64, Seq::<char>::empty(), 0u64),
        ),
        n_petb.pet_last_active == n_pet.pet_last_active,
        n_pet.pet_last_active == Some(now),
        show_view(n_petb.pending_show) == Some((banner, 2u64)),
        n_pet.pending_show == o.pending_show,
        n_pet.light_override == o.light_override && n_petb.light_override == o.light_override,
        n_pet.pet_idle_secs == o.pet_idle_secs && n_petb.pet_idle_secs == o.pet_idle_secs,
{
    lemma_command_words_distinct();
}


} // verus!
