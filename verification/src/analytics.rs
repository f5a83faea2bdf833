//! Usage analytics: the session an event belongs to, and the properties
//! an event carries. Sending them is the application's job.

pub use crate::config::analytics::{is_enabled, Analytics};
use crate::config::FileRead;
use crate::text::{chars_of, extend, lit, string_of};
use vstd::prelude::*;

verus! {

/// A point in time: whole seconds since the Unix epoch and the
/// nanoseconds beyond them.
#[derive(Clone, Copy, Debug, PartialEq, Eq, Structural)]
pub struct Moment {
    pub secs: i64,
    pub nanos: u32,
}

/// The moment in nanoseconds since the epoch.
pub open spec fn nanos_of(m: Moment) -> int {
    m.secs * 1_000_000_000 + m.nanos
}

/// How long a session stays active after its last activity: four hours.
pub open spec fn session_window() -> int {
    14_400_000_000_000int
}

/// The analytics state kept between runs.
#[derive(Clone, Debug, PartialEq, Eq, Default)]
pub struct AnalyticsState {
    /// Active analytics session ID
    pub session_id: Option<String>,
    /// Last analytics activity time
    pub last_activity: Option<Moment>,
}

/// Whether `now` is within the session window of `last`.
pub open spec fn in_session(last: Moment, now: Moment) -> bool {
    nanos_of(now) - nanos_of(last) < session_window()
}

fn within_session(last: Moment, now: Moment) -> (r: bool)
    requires
        last.nanos < 1_000_000_000,
        now.nanos < 1_000_000_000,
    ensures
        r == in_session(last, now),
{
    let a = (now.secs as i128) * 1_000_000_000 + (now.nanos as i128);
    let b = (last.secs as i128) * 1_000_000_000 + (last.nanos as i128);
    assert(-9_223_372_036_854_775_808 * 1_000_000_000 <= (now.secs as i128) * 1_000_000_000
        <= 9_223_372_036_854_775_807 * 1_000_000_000) by (nonlinear_arith)
        requires
            -9_223_372_036_854_775_808 <= now.secs <= 9_223_372_036_854_775_807,
    ;
    assert(-9_223_372_036_854_775_808 * 1_000_000_000 <= (last.secs as i128) * 1_000_000_000
        <= 9_223_372_036_854_775_807 * 1_000_000_000) by (nonlinear_arith)
        requires
            -9_223_372_036_854_775_808 <= last.secs <= 9_223_372_036_854_775_807,
    ;
    a - b < 14_400_000_000_000i128
}

/// Whether the state's session is still active at `now`: it has one, and
/// `now` is within the session window of its last activity.
pub open spec fn keeps_session(s: AnalyticsState, now: Moment) -> bool {
    match (s.session_id, s.last_activity) {
        (Some(_), Some(last)) => in_session(last, now),
        _ => false,
    }
}

impl AnalyticsState {
    /// Whether the session is still active at `now`.
    pub fn keeps(&self, now: Moment) -> (r: bool)
        requires
            now.nanos < 1_000_000_000,
            self.last_activity matches Some(l) ==> l.nanos < 1_000_000_000,
        ensures
            r == keeps_session(*self, now),
    {
        match (&self.session_id, self.last_activity) {
            (Some(_), Some(last)) => within_session(last, now),
            _ => false,
        }
    }

    /// The session an event at `now` belongs to, given a fresh id: the
    /// active one while `now` is within four hours of the last activity,
    /// else `fresh`; either way it becomes the active session, active at
    /// `now`.
    pub fn eval_session_id(&mut self, now: Moment, fresh: String) -> (r: String)
        requires
            now.nanos < 1_000_000_000,
            old(self).last_activity matches Some(l) ==> l.nanos < 1_000_000_000,
        ensures
            r@ == (if keeps_session(*old(self), now) {
                old(self).session_id->0@
            } else {
                fresh@
            }),
            final(self).session_id matches Some(id) && id@ == r@,
            final(self).last_activity == Some(now),
    {
        let keep = self.keeps(now);
        let id = if keep {
            match &self.session_id {
                Some(id) => string_of(&chars_of(id.as_str())),
                None => fresh,
            }
        } else {
            fresh
        };
        self.session_id = Some(string_of(&chars_of(id.as_str())));
        self.last_activity = Some(now);
        id
    }
}

/// What loading the analytics state takes next: parsing the contents
/// read, or nothing more (the state, with a warning when it fell back to
/// the defaults).
pub enum StateLoad {
    Parse(String),
    Loaded(AnalyticsState, Option<String>),
}

/// The state with no session.
pub open spec fn no_session() -> AnalyticsState {
    AnalyticsState { session_id: None, last_activity: None }
}

/// The warning of a state file that could not be used: what went wrong,
/// then that the defaults are used.
pub open spec fn state_warning(what: Seq<char>, path: Seq<char>, e: Seq<char>) -> Seq<char> {
    what + " "@ + path + ": "@ + e + "; using defaults"@
}

fn warning(what: &str, path: &str, e: &str) -> (r: String)
    ensures
        r@ == state_warning(what@, path@, e@),
{
    let mut m = lit(what);
    extend(&mut m, &lit(" "));
    extend(&mut m, &chars_of(path));
    extend(&mut m, &lit(": "));
    extend(&mut m, &chars_of(e));
    extend(&mut m, &lit("; using defaults"));
    string_of(&m)
}

impl AnalyticsState {
    /// Loading the state at `path` from what reading it gave: its contents
    /// are parsed; a missing file means no session, quietly; a failed read
    /// means no session, with a warning.
    pub fn load(path: &str, read: FileRead) -> (r: StateLoad)
        ensures
            match read {
                FileRead::Contents(c) => r matches StateLoad::Parse(x) && x@ == c@,
                FileRead::NotFound => r matches StateLoad::Loaded(s, w) && s == no_session() && w is None,
                FileRead::Failed(e) => r matches StateLoad::Loaded(s, w) && s == no_session() && (w matches Some(
                    m,
                ) && m@ == state_warning("failed to read"@, path@, e@)),
            },
    {
        match read {
            FileRead::Contents(c) => StateLoad::Parse(c),
            FileRead::NotFound => StateLoad::Loaded(AnalyticsState { session_id: None, last_activity: None }, None),
            FileRead::Failed(e) => StateLoad::Loaded(
                AnalyticsState { session_id: None, last_activity: None },
                Some(warning("failed to read", path, e.as_str())),
            ),
        }
    }

    /// The state from what parsing its contents gave: the state parsed,
    /// or no session with a warning when the contents do not parse.
    pub fn parsed(path: &str, parse: Result<AnalyticsState, String>) -> (r: (AnalyticsState, Option<String>))
        ensures
            match parse {
                Ok(s) => r.0 == s && r.1 is None,
                Err(e) => r.0 == no_session() && (r.1 matches Some(m) && m@ == state_warning(
                    "failed to parse"@,
                    path@,
                    e@,
                )),
            },
    {
        match parse {
            Ok(s) => (s, None),
            Err(e) => (
                AnalyticsState { session_id: None, last_activity: None },
                Some(warning("failed to parse", path, e.as_str())),
            ),
        }
    }
}

/// A finished command, as analytics sees it.
#[derive(Clone, Debug, PartialEq, Eq)]
pub struct CommandEvent {
    pub name: String,
    pub success: bool,
    pub duration_ms: u128,
    pub flags: Vec<String>,
    pub global_flags: Vec<String>,
}

/// The properties an event is sent with: its name, success and duration,
/// and a `true` property per flag, `<flag>_flag` for the command's flags
/// and `<flag>_global_flag` for the global ones.
pub struct EventProps {
    pub name: String,
    pub success: bool,
    pub duration_ms: u128,
    pub flag_keys: Vec<String>,
}

/// The property keys of the flags.
pub open spec fn flag_keys(flags: Seq<Seq<char>>, global_flags: Seq<Seq<char>>) -> Seq<Seq<char>> {
    flags.map_values(|f: Seq<char>| f + "_flag"@) + global_flags.map_values(
        |f: Seq<char>| f + "_global_flag"@,
    )
}

fn suffixed(out: &mut Vec<String>, flags: &Vec<String>, suffix: &str)
    ensures
        crate::git::views(final(out)@) == crate::git::views(old(out)@) + crate::git::views(flags@).map_values(
            |f: Seq<char>| f + suffix@,
        ),
{
    let ghost start = crate::git::views(out@);
    let mut i: usize = 0;
    while i < flags.len()
        invariant
            i <= flags.len(),
            crate::git::views(out@) == start + crate::git::views(flags@).take(i as int).map_values(
                |f: Seq<char>| f + suffix@,
            ),
        decreases flags.len() - i,
    {
        let mut k = chars_of(flags[i].as_str());
        extend(&mut k, &lit(suffix));
        let ghost before = crate::git::views(out@);
        out.push(string_of(&k));
        assert(crate::git::views(out@) =~= before.push(flags@[i as int]@ + suffix@));
        assert(crate::git::views(flags@).take(i + 1).map_values(|f: Seq<char>| f + suffix@)
            =~= crate::git::views(flags@).take(i as int).map_values(|f: Seq<char>| f + suffix@).push(
            flags@[i as int]@ + suffix@,
        ));
        i += 1;
    }
    assert(crate::git::views(flags@).take(flags.len() as int) =~= crate::git::views(flags@));
}

/// What recording an event at `now` hands to the analytics sink: nothing
/// when analytics are disabled, which leaves the state as it was; else the
/// event's session (the active one, or `fresh` when it has expired) and
/// properties.
pub fn record_with_sink(
    config: &Analytics,
    state: &mut AnalyticsState,
    event: CommandEvent,
    now: Moment,
    fresh: String,
) -> (r: Option<(String, EventProps)>)
    requires
        now.nanos < 1_000_000_000,
        old(state).last_activity matches Some(l) ==> l.nanos < 1_000_000_000,
    ensures
        !is_enabled(*config) ==> (r is None && *final(state) == *old(state)),
        is_enabled(*config) ==> (r matches Some(x) && x.1.name == event.name && x.1.success
            == event.success && x.1.duration_ms == event.duration_ms && crate::git::views(
            x.1.flag_keys@,
        ) == flag_keys(crate::git::views(event.flags@), crate::git::views(event.global_flags@))
            && final(state).last_activity == Some(now) && (final(state).session_id matches Some(
            id,
        ) && id@ == x.0@) && x.0@ == (if keeps_session(*old(state), now) {
            old(state).session_id->0@
        } else {
            fresh@
        })),
{
    if !config.enabled() {
        return None;
    }
    let session = state.eval_session_id(now, fresh);
    let mut keys: Vec<String> = Vec::new();
    suffixed(&mut keys, &event.flags, "_flag");
    suffixed(&mut keys, &event.global_flags, "_global_flag");
    Some(
        (
            session,
            EventProps {
                name: event.name,
                success: event.success,
                duration_ms: event.duration_ms,
                flag_keys: keys,
            },
        ),
    )
}

} // verus!
