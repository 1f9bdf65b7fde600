//! The state machine: each state is a behaviour package (trigger, rotating
//! sub-states, status lights). A trigger combines rules with `and`/`or`; the
//! active state is the triggered state with the highest effective priority,
//! where a persistent state counts 100 more; a default state is the fallback,
//! chosen only when no trigger fired.
//!
//! Reading the live system (CPU, memory, rates, devices, clock, scripts)
//! happens outside this crate: a rule here says which reading it needs
//! (`Rule::probe`), the caller takes that reading, and `Rule::holds` decides
//! the rule from it.

use vstd::prelude::*;

use crate::text::{
    after_first, before_first, parse_i32, parsed_i32, split_first, str_eq, str_has_char,
};

verus! {

// ---------------------------------------------------------------------------
// Data
// ---------------------------------------------------------------------------

/// The four status lights on the case (1 = on, 0 = off).
#[derive(Debug, Clone, Copy)]
pub struct LedState {
    pub clock: u8,
    pub medal: u8,
    pub up: u8,
    pub down: u8,
}

impl Default for LedState {
    fn default() -> (r: Self)
        ensures
            r.clock == 0 && r.medal == 0 && r.up == 0 && r.down == 0,
    {
        LedState { clock: 0, medal: 0, up: 0, down: 0 }
    }
}

/// One display step of a state.
#[derive(Debug)]
pub struct SubState {
    /// `xxx.bin` (animation), `module:cpu` (data module) or `text:...`.
    pub content: String,
    /// `static`, `type` or `flow`.
    pub mode: String,
    /// Milliseconds per frame.
    pub speed: u64,
    /// Seconds this step stays on screen.
    pub duration: u64,
    pub leds: LedState,
}

impl Clone for SubState {
    fn clone(&self) -> (r: Self)
        ensures
            r == *self,
    {
        SubState {
            content: self.content.clone(),
            mode: self.mode.clone(),
            speed: self.speed,
            duration: self.duration,
            leds: self.leds,
        }
    }
}

/// The default display mode of a sub-state.
pub fn default_mode() -> (r: String)
    ensures
        r@ == "static"@,
{
    String::from_str("static")
}

/// The default frame interval of a sub-state, in milliseconds.
pub fn default_speed() -> (r: u64)
    ensures
        r == 100,
{
    100
}

/// The default time a sub-state stays on screen, in seconds.
pub fn default_duration() -> (r: u64)
    ensures
        r == 5,
{
    5
}

/// One trigger condition.
#[derive(Debug)]
pub struct Rule {
    /// http/cpu/mem/load/temp/time/wan/device/rate/idle/ipchange/script
    pub rule_type: String,
    /// `>`, `<`, `>=`, `<=`, `=`/`==`, or a word the comparison ignores.
    pub op: String,
    /// The threshold, as the bits of an IEEE-754 double (`f64::to_bits`).
    pub val_bits: u64,
    /// Start of a `time` window, `"HH:MM"`.
    pub start: String,
    /// End of a `time` window, `"HH:MM"`.
    pub end: String,
    /// `rate` direction: `down` for receive, anything else for send.
    pub dir: String,
    /// `device` MAC address.
    pub mac: String,
    /// `http` signal name.
    pub signal: String,
    /// `script` path.
    pub script: String,
}

impl Clone for Rule {
    fn clone(&self) -> (r: Self)
        ensures
            r == *self,
    {
        Rule {
            rule_type: self.rule_type.clone(),
            op: self.op.clone(),
            val_bits: self.val_bits,
            start: self.start.clone(),
            end: self.end.clone(),
            dir: self.dir.clone(),
            mac: self.mac.clone(),
            signal: self.signal.clone(),
            script: self.script.clone(),
        }
    }
}

/// The default comparison of a rule.
pub fn default_op() -> (r: String)
    ensures
        r@ == ">"@,
{
    String::from_str(">")
}

/// A state's trigger: its rules, combined with `and` or `or`.
#[derive(Debug)]
pub struct Trigger {
    pub logic: String,
    pub rules: Vec<Rule>,
}

impl Trigger {
    /// `self` and `other` hold the same logic and the same rules.
    pub open spec fn same(self, other: Trigger) -> bool {
        self.logic == other.logic && self.rules@ == other.rules@
    }
}

impl Clone for Trigger {
    fn clone(&self) -> (r: Self)
        ensures
            r.same(*self),
    {
        let rules = self.rules.clone();
        assert(rules@ =~= self.rules@);
        Trigger { logic: self.logic.clone(), rules }
    }
}

/// The default combination of a trigger's rules.
pub fn default_logic() -> (r: String)
    ensures
        r@ == "or"@,
{
    String::from_str("or")
}

/// A state: a trigger, a priority, and the sub-states it rotates through.
#[derive(Debug)]
pub struct State {
    pub id: String,
    pub name: String,
    /// The fallback state: it always takes part in the selection.
    pub is_default: bool,
    pub priority: i32,
    /// `true`: stays until another state wins; `false`: shows `hold_secs` seconds.
    pub persistent: bool,
    pub hold_secs: u64,
    pub trigger: Option<Trigger>,
    pub substates: Vec<SubState>,
}

impl State {
    /// `self` and `other` agree on every field.
    pub open spec fn same(self, other: State) -> bool {
        &&& self.id == other.id
        &&& self.name == other.name
        &&& self.is_default == other.is_default
        &&& self.priority == other.priority
        &&& self.persistent == other.persistent
        &&& self.hold_secs == other.hold_secs
        &&& match (self.trigger, other.trigger) {
            (Some(a), Some(b)) => a.same(b),
            (None, None) => true,
            _ => false,
        }
        &&& self.substates@ == other.substates@
    }
}

impl Clone for State {
    fn clone(&self) -> (r: Self)
        ensures
            r.same(*self),
    {
        let trigger = match &self.trigger {
            Some(t) => Some(t.clone()),
            None => None,
        };
        let substates = self.substates.clone();
        assert(substates@ =~= self.substates@);
        State {
            id: self.id.clone(),
            name: self.name.clone(),
            is_default: self.is_default,
            priority: self.priority,
            persistent: self.persistent,
            hold_secs: self.hold_secs,
            trigger,
            substates,
        }
    }
}

/// The default time a transient state holds, in seconds.
pub fn default_hold() -> (r: u64)
    ensures
        r == 10,
{
    10
}

/// The contents of `states.json`.
#[derive(Debug)]
pub struct StatesFile {
    pub states: Vec<State>,
}

impl Default for StatesFile {
    fn default() -> (r: Self)
        ensures
            r.states@.len() == 0,
    {
        StatesFile { states: Vec::new() }
    }
}

impl Clone for StatesFile {
    fn clone(&self) -> (r: Self)
        ensures
            r.states@.len() == self.states@.len(),
            forall|i: int| 0 <= i < r.states@.len() ==> r.states@[i].same(self.states@[i]),
    {
        let mut states: Vec<State> = Vec::new();
        let n = self.states.len();
        let mut i: usize = 0;
        while i < n
            invariant
                n == self.states@.len(),
                i <= n,
                states@.len() == i,
                forall|j: int| 0 <= j < i ==> states@[j].same(self.states@[j]),
            decreases n - i,
        {
            states.push(self.states[i].clone());
            i = i + 1;
        }
        StatesFile { states }
    }
}

/// The state chosen to be shown, with the priority it won with.
#[derive(Debug)]
pub struct ActiveState {
    pub state: State,
    pub effective_priority: i32,
}

impl Clone for ActiveState {
    fn clone(&self) -> (r: Self)
        ensures
            r.state.same(self.state),
            r.effective_priority == self.effective_priority,
    {
        ActiveState { state: self.state.clone(), effective_priority: self.effective_priority }
    }
}


// ---------------------------------------------------------------------------
// Time windows
// ---------------------------------------------------------------------------

/// The hour and minute texts of `"H:M"`: the text has exactly one `:`.
pub open spec fn hm_parts(hm: Seq<char>) -> Option<(Seq<char>, Seq<char>)> {
    match after_first(hm, ':') {
        Some(m) => if m.contains(':') {
            None
        } else {
            Some((before_first(hm, ':'), m))
        },
        None => None,
    }
}

/// A number as `str::parse::<i32>` reads it, 0 where it reads none.
pub open spec fn part_value(s: Seq<char>) -> int {
    match parsed_i32(s) {
        Some(v) => v as int,
        None => 0,
    }
}

/// Minutes since midnight of `"H:M"`; 0 when the text is not two parts.
pub open spec fn hm_minutes(hm: Seq<char>) -> int {
    match hm_parts(hm) {
        Some(p) => part_value(p.0) * 60 + part_value(p.1),
        None => 0,
    }
}

/// `hm_to_min` computes without leaving `i32` (the hours times 60, then the
/// minutes added).
pub open spec fn hm_fits(hm: Seq<char>) -> bool {
    match hm_parts(hm) {
        Some(p) => {
            &&& i32::MIN <= part_value(p.0) * 60 <= i32::MAX
            &&& i32::MIN <= part_value(p.0) * 60 + part_value(p.1) <= i32::MAX
        },
        None => true,
    }
}

/// Minutes since midnight of an `"HH:MM"` text.
pub fn hm_to_min(hm: &str) -> (r: i32)
    requires
        hm_fits(hm@),
    ensures
        r == hm_minutes(hm@),
{
    let (h, rest) = split_first(hm, ':');
    match rest {
        Some(m) => {
            if str_has_char(m, ':') {
                0
            } else {
                let hv: i32 = match parse_i32(h) {
                    Some(v) => v,
                    None => 0,
                };
                let mv: i32 = match parse_i32(m) {
                    Some(v) => v,
                    None => 0,
                };
                hv * 60 + mv
            }
        },
        None => 0,
    }
}

/// Whether `hm_to_min` can read `hm` without overflow.
pub fn minutes_fit(hm: &str) -> (r: bool)
    ensures
        r == hm_fits(hm@),
{
    let (h, rest) = split_first(hm, ':');
    match rest {
        Some(m) => {
            if str_has_char(m, ':') {
                true
            } else {
                let hv: i64 = match parse_i32(h) {
                    Some(v) => v as i64,
                    None => 0,
                };
                let mv: i64 = match parse_i32(m) {
                    Some(v) => v as i64,
                    None => 0,
                };
                let hm60 = hv * 60;
                let total = hm60 + mv;
                i32::MIN as i64 <= hm60 && hm60 <= i32::MAX as i64 && i32::MIN as i64 <= total
                    && total <= i32::MAX as i64
            }
        },
        None => true,
    }
}

/// `now` lies in the window from `start` to `end` (end excluded); a window
/// whose end comes before its start runs over midnight; an empty text or a
/// window of zero length holds no time.
pub open spec fn in_window(now: Seq<char>, start: Seq<char>, end: Seq<char>) -> bool {
    if start.len() == 0 || end.len() == 0 {
        false
    } else {
        let n = hm_minutes(now);
        let s = hm_minutes(start);
        let e = hm_minutes(end);
        if s == e {
            false
        } else if s < e {
            s <= n && n < e
        } else {
            n >= s || n < e
        }
    }
}

/// The texts of a window can be read without overflow, where they are read.
pub open spec fn window_fits(now: Seq<char>, start: Seq<char>, end: Seq<char>) -> bool {
    start.len() > 0 && end.len() > 0 ==> hm_fits(now) && hm_fits(start) && hm_fits(end)
}

/// Whether the clock time `now` ("HH:MM") lies in the window `start`-`end`.
pub fn in_time_range(now: &str, start: &str, end: &str) -> (r: bool)
    requires
        window_fits(now@, start@, end@),
    ensures
        r == in_window(now@, start@, end@),
{
    if start.unicode_len() == 0 || end.unicode_len() == 0 {
        return false;
    }
    let now_m = hm_to_min(now);
    let s_m = hm_to_min(start);
    let e_m = hm_to_min(end);
    if s_m == e_m {
        return false;
    }
    if s_m < e_m {
        now_m >= s_m && now_m < e_m
    } else {
        now_m >= s_m || now_m < e_m
    }
}

/// Swapping the ends of a window (of non-zero length) gives the hours it
/// leaves out: every time lies in exactly one of the two.
pub proof fn lemma_window_complement(now: Seq<char>, start: Seq<char>, end: Seq<char>)
    requires
        start.len() > 0,
        end.len() > 0,
        hm_minutes(start) != hm_minutes(end),
    ensures
        in_window(now, start, end) == !in_window(now, end, start),
{
}

/// A window from a time to itself holds no time, and neither does one with
/// an empty end.
pub proof fn lemma_window_empty(now: Seq<char>, start: Seq<char>, end: Seq<char>)
    requires
        hm_minutes(start) == hm_minutes(end) || start.len() == 0 || end.len() == 0,
    ensures
        !in_window(now, start, end),
{
}


// ---------------------------------------------------------------------------
// Rules and triggers
// ---------------------------------------------------------------------------

/// A live value that a comparison rule reads.
#[derive(Debug, Clone, Copy, PartialEq, Eq, Structural)]
pub enum Metric {
    Cpu,
    Mem,
    Load,
    Temp,
    /// Receive rate (`rate` with `dir` `down`).
    RxRate,
    /// Send rate (`rate` with any other `dir`).
    TxRate,
}

/// How a comparison rule compares its reading with its threshold.
#[derive(Debug, Clone, Copy, PartialEq, Eq, Structural)]
pub enum CmpOp {
    Gt,
    Lt,
    Ge,
    Le,
    /// Equal within 0.001.
    Eq,
    /// An operator the comparison does not know: never holds.
    Never,
}

/// What a rule needs from the live system to be decided.
#[derive(Debug, Clone, Copy, PartialEq, Eq, Structural)]
pub enum RuleProbe {
    /// The rule never holds (`idle`, unknown types, or a missing name).
    Never,
    /// `http`: holds while `signal` was pushed less than 60 seconds ago.
    Signal,
    /// Compares a reading with the threshold `val_bits`.
    Compare(Metric, CmpOp),
    /// `time`: holds while the local clock time (`"HH:MM"`) lies in
    /// `start`-`end`, as `in_time_range` decides.
    TimeWindow,
    /// `wan`: holds while the WAN link is down.
    WanDown,
    /// `device` with `op` `join`, `up` or any other word but `down`: holds
    /// while the device `mac` is online.
    DeviceOnline,
    /// `device` with `op` `down`: holds while the device `mac` is offline.
    DeviceOffline,
    /// `ipchange`: holds when the public IP changed.
    IpChanged,
    /// `script`: holds when the script `script` exits with status 0.
    Script,
}

/// The comparison a rule's `op` names.
pub open spec fn cmp_op_of(op: Seq<char>) -> CmpOp {
    if op == ">"@ {
        CmpOp::Gt
    } else if op == "<"@ {
        CmpOp::Lt
    } else if op == ">="@ {
        CmpOp::Ge
    } else if op == "<="@ {
        CmpOp::Le
    } else if op == "="@ || op == "=="@ {
        CmpOp::Eq
    } else {
        CmpOp::Never
    }
}

/// What a rule needs to be decided, by its type.
pub open spec fn probe_of(r: Rule) -> RuleProbe {
    let t = r.rule_type@;
    if t == "http"@ {
        if r.signal@.len() == 0 {
            RuleProbe::Never
        } else {
            RuleProbe::Signal
        }
    } else if t == "cpu"@ {
        RuleProbe::Compare(Metric::Cpu, cmp_op_of(r.op@))
    } else if t == "mem"@ {
        RuleProbe::Compare(Metric::Mem, cmp_op_of(r.op@))
    } else if t == "load"@ {
        RuleProbe::Compare(Metric::Load, cmp_op_of(r.op@))
    } else if t == "temp"@ {
        RuleProbe::Compare(Metric::Temp, cmp_op_of(r.op@))
    } else if t == "rate"@ {
        if r.dir@ == "down"@ {
            RuleProbe::Compare(Metric::RxRate, cmp_op_of(r.op@))
        } else {
            RuleProbe::Compare(Metric::TxRate, cmp_op_of(r.op@))
        }
    } else if t == "time"@ {
        RuleProbe::TimeWindow
    } else if t == "wan"@ {
        RuleProbe::WanDown
    } else if t == "device"@ {
        if r.mac@.len() == 0 {
            RuleProbe::Never
        } else if r.op@ == "down"@ {
            RuleProbe::DeviceOffline
        } else {
            RuleProbe::DeviceOnline
        }
    } else if t == "idle"@ {
        RuleProbe::Never
    } else if t == "ipchange"@ {
        RuleProbe::IpChanged
    } else if t == "script"@ {
        if r.script@.len() == 0 {
            RuleProbe::Never
        } else {
            RuleProbe::Script
        }
    } else {
        RuleProbe::Never
    }
}

/// The comparison an operator text names.
pub fn parse_cmp_op(op: &str) -> (r: CmpOp)
    ensures
        r == cmp_op_of(op@),
{
    if str_eq(op, ">") {
        CmpOp::Gt
    } else if str_eq(op, "<") {
        CmpOp::Lt
    } else if str_eq(op, ">=") {
        CmpOp::Ge
    } else if str_eq(op, "<=") {
        CmpOp::Le
    } else if str_eq(op, "=") || str_eq(op, "==") {
        CmpOp::Eq
    } else {
        CmpOp::Never
    }
}

impl Rule {
    /// What this rule needs from the live system to be decided.
    pub fn probe(&self) -> (r: RuleProbe)
        ensures
            r == probe_of(*self),
    {
        let t = self.rule_type.as_str();
        if str_eq(t, "http") {
            if self.signal.as_str().unicode_len() == 0 {
                RuleProbe::Never
            } else {
                RuleProbe::Signal
            }
        } else if str_eq(t, "cpu") {
            RuleProbe::Compare(Metric::Cpu, parse_cmp_op(self.op.as_str()))
        } else if str_eq(t, "mem") {
            RuleProbe::Compare(Metric::Mem, parse_cmp_op(self.op.as_str()))
        } else if str_eq(t, "load") {
            RuleProbe::Compare(Metric::Load, parse_cmp_op(self.op.as_str()))
        } else if str_eq(t, "temp") {
            RuleProbe::Compare(Metric::Temp, parse_cmp_op(self.op.as_str()))
        } else if str_eq(t, "rate") {
            if str_eq(self.dir.as_str(), "down") {
                RuleProbe::Compare(Metric::RxRate, parse_cmp_op(self.op.as_str()))
            } else {
                RuleProbe::Compare(Metric::TxRate, parse_cmp_op(self.op.as_str()))
            }
        } else if str_eq(t, "time") {
            RuleProbe::TimeWindow
        } else if str_eq(t, "wan") {
            RuleProbe::WanDown
        } else if str_eq(t, "device") {
            if self.mac.as_str().unicode_len() == 0 {
                RuleProbe::Never
            } else if str_eq(self.op.as_str(), "down") {
                RuleProbe::DeviceOffline
            } else {
                RuleProbe::DeviceOnline
            }
        } else if str_eq(t, "idle") {
            RuleProbe::Never
        } else if str_eq(t, "ipchange") {
            RuleProbe::IpChanged
        } else if str_eq(t, "script") {
            if self.script.as_str().unicode_len() == 0 {
                RuleProbe::Never
            } else {
                RuleProbe::Script
            }
        } else {
            RuleProbe::Never
        }
    }
}

/// How long an `http` signal keeps its rule hit, in seconds.
pub open spec fn signal_window() -> u64 {
    60
}

/// An `http` signal pushed `age_secs` seconds ago still holds.
pub fn signal_fresh(age_secs: u64) -> (r: bool)
    ensures
        r == (age_secs < signal_window()),
{
    age_secs < 60
}

/// What the caller read from the live system for a rule, as its probe asked.
#[derive(Debug, Clone)]
pub enum Observation {
    /// Nothing was read (the probe is `Never`).
    Nothing,
    /// `Signal`: seconds since the signal was last pushed; `None` if never.
    SignalAge(Option<u64>),
    /// `Compare`: whether the reading compares with the threshold as the
    /// operator says.
    Compared(bool),
    /// `TimeWindow`: the local clock time, `"HH:MM"`.
    Clock(String),
    /// `DeviceOnline` / `DeviceOffline`: whether the device is online.
    Online(bool),
    /// `WanDown`, `IpChanged`, `Script`: whether the link is down, the IP
    /// changed, or the script exited with status 0.
    Flag(bool),
}

/// Whether a rule holds, given what was read for its probe; an observation
/// of another kind than the probe asks for decides nothing (`false`).
pub open spec fn rule_holds(r: Rule, obs: Observation) -> bool {
    match (probe_of(r), obs) {
        (RuleProbe::Signal, Observation::SignalAge(Some(age))) => age < signal_window(),
        (RuleProbe::Compare(_, _), Observation::Compared(b)) => b,
        (RuleProbe::TimeWindow, Observation::Clock(now)) => in_window(now@, r.start@, r.end@),
        (RuleProbe::WanDown, Observation::Flag(b)) => b,
        (RuleProbe::DeviceOnline, Observation::Online(online)) => online,
        (RuleProbe::DeviceOffline, Observation::Online(online)) => !online,
        (RuleProbe::IpChanged, Observation::Flag(b)) => b,
        (RuleProbe::Script, Observation::Flag(b)) => b,
        _ => false,
    }
}

impl Rule {
    /// Decides the rule from what was read for its probe: an `http` signal
    /// holds while fresh, a comparison as compared, a time window while the
    /// clock lies in it, a `device` rule while the device is online (offline
    /// for op `down`), the other probes as read; `Never` never holds.
    pub fn holds(&self, obs: &Observation) -> (r: bool)
        requires
            probe_of(*self) == RuleProbe::TimeWindow ==> (obs matches Observation::Clock(now)
                ==> window_fits(now@, self.start@, self.end@)),
        ensures
            r == rule_holds(*self, *obs),
    {
        let probe = self.probe();
        match probe {
            RuleProbe::Signal => match obs {
                Observation::SignalAge(Some(age)) => signal_fresh(*age),
                _ => false,
            },
            RuleProbe::Compare(_, _) => match obs {
                Observation::Compared(b) => *b,
                _ => false,
            },
            RuleProbe::TimeWindow => match obs {
                Observation::Clock(now) => in_time_range(
                    now.as_str(),
                    self.start.as_str(),
                    self.end.as_str(),
                ),
                _ => false,
            },
            RuleProbe::WanDown | RuleProbe::IpChanged | RuleProbe::Script => match obs {
                Observation::Flag(b) => *b,
                _ => false,
            },
            RuleProbe::DeviceOnline => match obs {
                Observation::Online(online) => *online,
                _ => false,
            },
            RuleProbe::DeviceOffline => match obs {
                Observation::Online(online) => !*online,
                _ => false,
            },
            RuleProbe::Never => false,
        }
    }
}

/// Every result holds.
pub open spec fn all_true(s: Seq<bool>) -> bool {
    forall|i: int| 0 <= i < s.len() ==> #[trigger] s[i]
}

/// Some result holds.
pub open spec fn any_true(s: Seq<bool>) -> bool {
    exists|i: int| 0 <= i < s.len() && #[trigger] s[i]
}

/// A trigger with these rule results fires: never without rules; with
/// `and` when every rule holds, otherwise when some rule holds.
pub open spec fn trigger_fires(logic: Seq<char>, n_rules: nat, results: Seq<bool>) -> bool {
    n_rules > 0 && if logic == "and"@ {
        all_true(results)
    } else {
        any_true(results)
    }
}

impl Trigger {
    /// Whether the trigger fires, given the result of each of its rules in
    /// order (`results[i]` for `rules[i]`).
    pub fn matches(&self, results: &[bool]) -> (r: bool)
        requires
            results@.len() == self.rules@.len(),
        ensures
            r == trigger_fires(self.logic@, self.rules@.len(), results@),
    {
        if self.rules.len() == 0 {
            return false;
        }
        let n = results.len();
        if str_eq(self.logic.as_str(), "and") {
            let mut i: usize = 0;
            while i < n
                invariant
                    n == results@.len(),
                    n == self.rules@.len(),
                    n > 0,
                    self.logic@ == "and"@,
                    i <= n,
                    forall|j: int| 0 <= j < i ==> results@[j],
                decreases n - i,
            {
                if !results[i] {
                    assert(!results@[i as int]);
                    return false;
                }
                i = i + 1;
            }
            true
        } else {
            let mut i: usize = 0;
            while i < n
                invariant
                    n == results@.len(),
                    n == self.rules@.len(),
                    n > 0,
                    self.logic@ != "and"@,
                    i <= n,
                    forall|j: int| 0 <= j < i ==> !results@[j],
                decreases n - i,
            {
                if results[i] {
                    assert(results@[i as int]);
                    return true;
                }
                i = i + 1;
            }
            false
        }
    }
}

// ---------------------------------------------------------------------------
// Selection
// ---------------------------------------------------------------------------

/// State `i` is not a default state, has a trigger, and that trigger fired
/// (`fired[i]`).
pub open spec fn triggered(states: Seq<State>, fired: Seq<bool>, i: int) -> bool {
    !states[i].is_default && states[i].trigger is Some && fired[i]
}

/// Some non-default state's trigger fired.
pub open spec fn any_triggered(states: Seq<State>, fired: Seq<bool>) -> bool {
    exists|i: int| 0 <= i < states.len() && triggered(states, fired, i)
}

/// State `i` is a candidate of a round: of the default states in the
/// fallback round, of the triggered states otherwise.
pub open spec fn candidate(states: Seq<State>, fired: Seq<bool>, fallback: bool, i: int) -> bool {
    if fallback {
        states[i].is_default
    } else {
        triggered(states, fired, i)
    }
}

/// State `i` takes part in the selection: the triggered states, or, when no
/// state is triggered, the default states (the fallback).
pub open spec fn is_hit(states: Seq<State>, fired: Seq<bool>, i: int) -> bool {
    candidate(states, fired, !any_triggered(states, fired), i)
}

/// The priority a state competes with: persistent states count 100 more.
pub open spec fn effective(st: State) -> int {
    st.priority + if st.persistent {
        100int
    } else {
        0int
    }
}

/// State `k` wins a round: it is a candidate, no candidate has a higher
/// effective priority, and every earlier candidate has a lower one.
pub open spec fn wins_round(states: Seq<State>, fired: Seq<bool>, fallback: bool, k: int) -> bool {
    &&& 0 <= k < states.len()
    &&& candidate(states, fired, fallback, k)
    &&& forall|j: int|
        0 <= j < states.len() && candidate(states, fired, fallback, j) ==> effective(states[j])
            <= effective(states[k])
    &&& forall|j: int|
        0 <= j < k && candidate(states, fired, fallback, j) ==> effective(states[j]) < effective(
            states[k],
        )
}

/// State `k` wins the selection.
pub open spec fn wins(states: Seq<State>, fired: Seq<bool>, k: int) -> bool {
    wins_round(states, fired, !any_triggered(states, fired), k)
}

/// The effective priority of every hit state fits in an `i32`.
pub open spec fn priorities_fit(states: Seq<State>, fired: Seq<bool>) -> bool {
    forall|i: int| 0 <= i < states.len() && is_hit(states, fired, i) ==> effective(states[i]) <= i32::MAX
}

/// One round of the selection: the first candidate with the highest
/// effective priority.
fn best_of_round(states: &[State], fired: &[bool], fallback: bool) -> (r: Option<ActiveState>)
    requires
        fired@.len() == states@.len(),
        forall|i: int|
            0 <= i < states@.len() && candidate(states@, fired@, fallback, i) ==> effective(
                states@[i],
            ) <= i32::MAX,
    ensures
        r is None <==> (forall|i: int|
            0 <= i < states@.len() ==> !candidate(states@, fired@, fallback, i)),
        r matches Some(a) ==> exists|k: int|
            #![trigger states@[k]]
            wins_round(states@, fired@, fallback, k) && a.state.same(states@[k])
                && a.effective_priority == effective(states@[k]),
{
    let n = states.len();
    let mut best: Option<ActiveState> = None;
    let ghost mut best_k: int = -1;
    let mut i: usize = 0;
    while i < n
        invariant
            n == states@.len(),
            n == fired@.len(),
            i <= n,
            forall|j: int|
                0 <= j < states@.len() && candidate(states@, fired@, fallback, j) ==> effective(
                    states@[j],
                ) <= i32::MAX,
            best is None <==> (forall|j: int| 0 <= j < i ==> !candidate(states@, fired@, fallback, j)),
            best matches Some(a) ==> {
                &&& 0 <= best_k < i
                &&& candidate(states@, fired@, fallback, best_k)
                &&& a.state.same(states@[best_k])
                &&& a.effective_priority == effective(states@[best_k])
                &&& forall|j: int|
                    0 <= j < i && candidate(states@, fired@, fallback, j) ==> effective(states@[j])
                        <= effective(states@[best_k])
                &&& forall|j: int|
                    0 <= j < best_k && candidate(states@, fired@, fallback, j) ==> effective(
                        states@[j],
                    ) < effective(states@[best_k])
            },
        decreases n - i,
    {
        let st = &states[i];
        let hit = if fallback {
            st.is_default
        } else if st.is_default {
            false
        } else {
            match &st.trigger {
                Some(_) => fired[i],
                None => false,
            }
        };
        assert(hit == candidate(states@, fired@, fallback, i as int));
        if hit {
            assert(effective(states@[i as int]) <= i32::MAX);
            let eff: i32 = st.priority + if st.persistent {
                100
            } else {
                0
            };
            let better = match &best {
                None => true,
                Some(b) => eff > b.effective_priority,
            };
            if better {
                best = Some(ActiveState { state: st.clone(), effective_priority: eff });
                proof {
                    best_k = i as int;
                }
            }
        }
        i = i + 1;
    }
    proof {
        if best is Some {
            assert(wins_round(states@, fired@, fallback, best_k));
        }
    }
    best
}

/// Chooses the state to show: among the states whose trigger fired (default
/// states aside), the first with the highest effective priority; when no
/// trigger fired, the first default state with the highest one; `None` when
/// there is none either. `fired[i]` is whether the trigger of `states[i]`
/// fired (read only for non-default states that have a trigger).
pub fn select_active(states: &[State], fired: &[bool]) -> (r: Option<ActiveState>)
    requires
        fired@.len() == states@.len(),
        priorities_fit(states@, fired@),
    ensures
        r is None <==> (forall|i: int| 0 <= i < states@.len() ==> !is_hit(states@, fired@, i)),
        any_triggered(states@, fired@) ==> (r matches Some(a) && !a.state.is_default),
        (exists|i: int| 0 <= i < states@.len() && states@[i].is_default) ==> r is Some,
        r matches Some(a) ==> exists|k: int|
            #![trigger states@[k]]
            wins(states@, fired@, k) && a.state.same(states@[k]) && a.effective_priority
                == effective(states@[k]),
{
    assert forall|i: int|
        0 <= i < states@.len() && candidate(states@, fired@, false, i) implies effective(
            states@[i],
        ) <= i32::MAX by {
        assert(any_triggered(states@, fired@));
        assert(is_hit(states@, fired@, i));
    }
    let first = best_of_round(states, fired, false);
    if first.is_some() {
        proof {
            let k = choose|k: int| 0 <= k < states@.len() && candidate(states@, fired@, false, k);
            assert(triggered(states@, fired@, k));
            assert(any_triggered(states@, fired@));
            assert(is_hit(states@, fired@, k));
        }
        return first;
    }
    assert(!any_triggered(states@, fired@)) by {
        if any_triggered(states@, fired@) {
            let k = choose|k: int| 0 <= k < states@.len() && triggered(states@, fired@, k);
            assert(candidate(states@, fired@, false, k));
        }
    }
    assert forall|i: int|
        0 <= i < states@.len() && candidate(states@, fired@, true, i) implies effective(
            states@[i],
        ) <= i32::MAX by {
        assert(is_hit(states@, fired@, i));
    }
    let r = best_of_round(states, fired, true);
    proof {
        if r is None {
            assert forall|i: int| 0 <= i < states@.len() implies !is_hit(states@, fired@, i) by {
                assert(!candidate(states@, fired@, true, i));
            }
        } else {
            let k = choose|k: int| 0 <= k < states@.len() && candidate(states@, fired@, true, k);
            assert(is_hit(states@, fired@, k));
        }
        if exists|j: int| 0 <= j < states@.len() && states@[j].is_default {
            let j = choose|j: int| 0 <= j < states@.len() && states@[j].is_default;
            assert(candidate(states@, fired@, true, j));
        }
    }
    r
}

/// A transient state cannot win over a hit persistent state whose priority is
/// more than its own minus 100: persistent states outrank transient ones.
pub proof fn lemma_persistent_outranks(states: Seq<State>, fired: Seq<bool>, k: int, j: int)
    ensures
        !(wins(states, fired, k) && 0 <= j < states.len() && is_hit(states, fired, j)
            && states[j].persistent && !states[k].persistent && states[j].priority + 100
            > states[k].priority),
{
}

/// The winner is unique: two winning positions are the same.
pub proof fn lemma_winner_unique(states: Seq<State>, fired: Seq<bool>, k1: int, k2: int)
    requires
        wins(states, fired, k1),
        wins(states, fired, k2),
    ensures
        k1 == k2,
{
}

/// The rule type words are pairwise different.
proof fn lemma_rule_types_distinct()
    ensures
        "http"@ != "cpu"@,
        "http"@ != "mem"@,
        "http"@ != "load"@,
        "http"@ != "temp"@,
        "http"@ != "rate"@,
        "http"@ != "time"@,
        "http"@ != "wan"@,
        "http"@ != "device"@,
        "http"@ != "idle"@,
        "http"@ != "ipchange"@,
        "http"@ != "script"@,
        "cpu"@ != "mem"@,
        "cpu"@ != "load"@,
        "cpu"@ != "temp"@,
        "cpu"@ != "rate"@,
        "cpu"@ != "time"@,
        "cpu"@ != "wan"@,
        "cpu"@ != "device"@,
        "cpu"@ != "idle"@,
        "cpu"@ != "ipchange"@,
        "cpu"@ != "script"@,
        "mem"@ != "load"@,
        "mem"@ != "temp"@,
        "mem"@ != "rate"@,
        "mem"@ != "time"@,
        "mem"@ != "wan"@,
        "mem"@ != "device"@,
        "mem"@ != "idle"@,
        "mem"@ != "ipchange"@,
        "mem"@ != "script"@,
        "load"@ != "temp"@,
        "load"@ != "rate"@,
        "load"@ != "time"@,
        "load"@ != "wan"@,
        "load"@ != "device"@,
        "load"@ != "idle"@,
        "load"@ != "ipchange"@,
        "load"@ != "script"@,
        "temp"@ != "rate"@,
        "temp"@ != "time"@,
        "temp"@ != "wan"@,
        "temp"@ != "device"@,
        "temp"@ != "idle"@,
        "temp"@ != "ipchange"@,
        "temp"@ != "script"@,
        "rate"@ != "time"@,
        "rate"@ != "wan"@,
        "rate"@ != "device"@,
        "rate"@ != "idle"@,
        "rate"@ != "ipchange"@,
        "rate"@ != "script"@,
        "time"@ != "wan"@,
        "time"@ != "device"@,
        "time"@ != "idle"@,
        "time"@ != "ipchange"@,
        "time"@ != "script"@,
        "wan"@ != "device"@,
        "wan"@ != "idle"@,
        "wan"@ != "ipchange"@,
        "wan"@ != "script"@,
        "device"@ != "idle"@,
        "device"@ != "ipchange"@,
        "device"@ != "script"@,
        "idle"@ != "ipchange"@,
        "idle"@ != "script"@,
        "ipchange"@ != "script"@,
{
    reveal_strlit("cpu");
    reveal_strlit("device");
    reveal_strlit("http");
    reveal_strlit("idle");
    reveal_strlit("ipchange");
    reveal_strlit("load");
    reveal_strlit("mem");
    reveal_strlit("rate");
    reveal_strlit("script");
    reveal_strlit("temp");
    reveal_strlit("time");
    reveal_strlit("wan");
    assert("http"@.len() != "cpu"@.len());
    assert("http"@.len() != "mem"@.len());
    assert("http"@[0] != "load"@[0]);
    assert("http"@[0] != "temp"@[0]);
    assert("http"@[0] != "rate"@[0]);
    assert("http"@[0] != "time"@[0]);
    assert("http"@.len() != "wan"@.len());
    assert("http"@.len() != "device"@.len());
    assert("http"@[0] != "idle"@[0]);
    assert("http"@.len() != "ipchange"@.len());
    assert("http"@.len() != "script"@.len());
    assert("cpu"@[0] != "mem"@[0]);
    assert("cpu"@.len() != "load"@.len());
    assert("cpu"@.len() != "temp"@.len());
    assert("cpu"@.len() != "rate"@.len());
    assert("cpu"@.len() != "time"@.len());
    assert("cpu"@[0] != "wan"@[0]);
    assert("cpu"@.len() != "device"@.len());
    assert("cpu"@.len() != "idle"@.len());
    assert("cpu"@.len() != "ipchange"@.len());
    assert("cpu"@.len() != "script"@.len());
    assert("mem"@.len() != "load"@.len());
    assert("mem"@.len() != "temp"@.len());
    assert("mem"@.len() != "rate"@.len());
    assert("mem"@.len() != "time"@.len());
    assert("mem"@[0] != "wan"@[0]);
    assert("mem"@.len() != "device"@.len());
    assert("mem"@.len() != "idle"@.len());
    assert("mem"@.len() != "ipchange"@.len());
    assert("mem"@.len() != "script"@.len());
    assert("load"@[0] != "temp"@[0]);
    assert("load"@[0] != "rate"@[0]);
    assert("load"@[0] != "time"@[0]);
    assert("load"@.len() != "wan"@.len());
    assert("load"@.len() != "device"@.len());
    assert("load"@[0] != "idle"@[0]);
    assert("load"@.len() != "ipchange"@.len());
    assert("load"@.len() != "script"@.len());
    assert("temp"@[0] != "rate"@[0]);
    assert("temp"@[1] != "time"@[1]);
    assert("temp"@.len() != "wan"@.len());
    assert("temp"@.len() != "device"@.len());
    assert("temp"@[0] != "idle"@[0]);
    assert("temp"@.len() != "ipchange"@.len());
    assert("temp"@.len() != "script"@.len());
    assert("rate"@[0] != "time"@[0]);
    assert("rate"@.len() != "wan"@.len());
    assert("rate"@.len() != "device"@.len());
    assert("rate"@[0] != "idle"@[0]);
    assert("rate"@.len() != "ipchange"@.len());
    assert("rate"@.len() != "script"@.len());
    assert("time"@.len() != "wan"@.len());
    assert("time"@.len() != "device"@.len());
    assert("time"@[0] != "idle"@[0]);
    assert("time"@.len() != "ipchange"@.len());
    assert("time"@.len() != "script"@.len());
    assert("wan"@.len() != "device"@.len());
    assert("wan"@.len() != "idle"@.len());
    assert("wan"@.len() != "ipchange"@.len());
    assert("wan"@.len() != "script"@.len());
    assert("device"@.len() != "idle"@.len());
    assert("device"@.len() != "ipchange"@.len());
    assert("device"@[0] != "script"@[0]);
    assert("idle"@.len() != "ipchange"@.len());
    assert("idle"@.len() != "script"@.len());
    assert("ipchange"@.len() != "script"@.len());
}

/// The operator texts are pairwise different.
proof fn lemma_cmp_ops_distinct()
    ensures
        ">"@ != "<"@,
        ">"@ != ">="@,
        ">"@ != "<="@,
        ">"@ != "="@,
        ">"@ != "=="@,
        "<"@ != ">="@,
        "<"@ != "<="@,
        "<"@ != "="@,
        "<"@ != "=="@,
        ">="@ != "<="@,
        ">="@ != "="@,
        ">="@ != "=="@,
        "<="@ != "="@,
        "<="@ != "=="@,
        "="@ != "=="@,
{
    reveal_strlit("<");
    reveal_strlit("<=");
    reveal_strlit("=");
    reveal_strlit("==");
    reveal_strlit(">");
    reveal_strlit(">=");
    assert(">"@[0] != "<"@[0]);
    assert(">"@.len() != ">="@.len());
    assert(">"@.len() != "<="@.len());
    assert(">"@[0] != "="@[0]);
    assert(">"@.len() != "=="@.len());
    assert("<"@.len() != ">="@.len());
    assert("<"@.len() != "<="@.len());
    assert("<"@[0] != "="@[0]);
    assert("<"@.len() != "=="@.len());
    assert(">="@[0] != "<="@[0]);
    assert(">="@.len() != "="@.len());
    assert(">="@[0] != "=="@[0]);
    assert("<="@.len() != "="@.len());
    assert("<="@[0] != "=="@[0]);
    assert("="@.len() != "=="@.len());
}

/// A comparison rule reads the metric its type names, with the operator its
/// `op` names: `cpu` the CPU usage, `mem` the memory usage, `load` the load
/// average, `temp` the chip temperature, `rate` the receive rate for `dir`
/// `down` and the send rate otherwise.
pub proof fn law_rule_metrics(r: Rule)
    ensures
        r.rule_type@ == "cpu"@ ==> probe_of(r) == RuleProbe::Compare(Metric::Cpu, cmp_op_of(r.op@)),
        r.rule_type@ == "mem"@ ==> probe_of(r) == RuleProbe::Compare(Metric::Mem, cmp_op_of(r.op@)),
        r.rule_type@ == "load"@ ==> probe_of(r) == RuleProbe::Compare(
            Metric::Load,
            cmp_op_of(r.op@),
        ),
        r.rule_type@ == "temp"@ ==> probe_of(r) == RuleProbe::Compare(
            Metric::Temp,
            cmp_op_of(r.op@),
        ),
        r.rule_type@ == "rate"@ && r.dir@ == "down"@ ==> probe_of(r) == RuleProbe::Compare(
            Metric::RxRate,
            cmp_op_of(r.op@),
        ),
        r.rule_type@ == "rate"@ && r.dir@ != "down"@ ==> probe_of(r) == RuleProbe::Compare(
            Metric::TxRate,
            cmp_op_of(r.op@),
        ),
        (probe_of(r) is Compare ==> (r.rule_type@ == "cpu"@ || r.rule_type@
            == "mem"@ || r.rule_type@ == "load"@ || r.rule_type@ == "temp"@ || r.rule_type@
            == "rate"@)),
{
    lemma_rule_types_distinct();
}

/// The other rule types: `http` waits for its signal, `time` for its window,
/// `wan` for the link to go down, `device` for the device to come online
/// (`join`, `up`) or go offline (`down`), `ipchange` for a new public IP,
/// `script` for its exit status; `idle` and unknown types never hold, nor do
/// rules that lack the name they need.
pub proof fn law_rule_kinds(r: Rule)
    ensures
        r.rule_type@ == "http"@ ==> probe_of(r) == (if r.signal@.len() == 0 {
            RuleProbe::Never
        } else {
            RuleProbe::Signal
        }),
        r.rule_type@ == "time"@ ==> probe_of(r) == RuleProbe::TimeWindow,
        r.rule_type@ == "wan"@ ==> probe_of(r) == RuleProbe::WanDown,
        r.rule_type@ == "device"@ && r.mac@.len() > 0 ==> probe_of(r) == (if r.op@ == "down"@ {
            RuleProbe::DeviceOffline
        } else {
            RuleProbe::DeviceOnline
        }),
        r.rule_type@ == "device"@ && r.mac@.len() == 0 ==> probe_of(r) == RuleProbe::Never,
        r.rule_type@ == "idle"@ ==> probe_of(r) == RuleProbe::Never,
        r.rule_type@ == "ipchange"@ ==> probe_of(r) == RuleProbe::IpChanged,
        r.rule_type@ == "script"@ ==> probe_of(r) == (if r.script@.len() == 0 {
            RuleProbe::Never
        } else {
            RuleProbe::Script
        }),
{
    lemma_rule_types_distinct();
}

/// The operators: `>` greater, `<` less, `>=` at least, `<=` at most, `=`
/// and `==` equal; any other text never holds.
pub proof fn law_cmp_ops(op: Seq<char>)
    ensures
        op == ">"@ ==> cmp_op_of(op) == CmpOp::Gt,
        op == "<"@ ==> cmp_op_of(op) == CmpOp::Lt,
        op == ">="@ ==> cmp_op_of(op) == CmpOp::Ge,
        op == "<="@ ==> cmp_op_of(op) == CmpOp::Le,
        op == "="@ || op == "=="@ ==> cmp_op_of(op) == CmpOp::Eq,
        op != ">"@ && op != "<"@ && op != ">="@ && op != "<="@ && op != "="@ && op != "=="@
            ==> cmp_op_of(op) == CmpOp::Never,
{
    lemma_cmp_ops_distinct();
}

/// An `and` trigger with rules fires exactly when every rule result holds: a
/// false result at any position keeps it from firing.
pub proof fn law_trigger_and(n_rules: nat, results: Seq<bool>)
    requires
        n_rules > 0,
    ensures
        trigger_fires("and"@, n_rules, results) <==> (forall|i: int|
            0 <= i < results.len() ==> results[i]),
        forall|i: int| 0 <= i < results.len() && !results[i] ==> !trigger_fires("and"@, n_rules, results),
{
}

/// Any other trigger with rules fires exactly when some rule result holds;
/// a trigger without rules never fires.
pub proof fn law_trigger_or(logic: Seq<char>, n_rules: nat, results: Seq<bool>)
    ensures
        n_rules > 0 && logic != "and"@ ==> (trigger_fires(logic, n_rules, results) <==> (exists|
            i: int,
        | 0 <= i < results.len() && results[i])),
        n_rules == 0 ==> !trigger_fires(logic, n_rules, results),
{
}


} // verus!
