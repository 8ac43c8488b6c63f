//! The door policy engine: the authoritative door status, the staleness
//! rule, and the alert/backoff policy.

use vstd::prelude::*;
use vstd::string::StringExecFns;

use crate::duration::{parse_u32, parsed_u32, timedelta_text, Duration};

verus! {

/// The tracked physical state of the door.
#[derive(PartialEq, Eq, Copy, Clone, Structural, Debug)]
pub enum DoorPosition {
    Open,
    Closed,
    Missing,
}

impl DoorPosition {
    /// Lower-case display text of the position.
    pub open spec fn display_text(self) -> Seq<char> {
        match self {
            DoorPosition::Open => "open"@,
            DoorPosition::Closed => "closed"@,
            DoorPosition::Missing => "missing"@,
        }
    }

    /// Capitalised text used for the bot's presence line.
    pub open spec fn presence_text(self) -> Seq<char> {
        match self {
            DoorPosition::Open => "Open"@,
            DoorPosition::Closed => "Closed"@,
            DoorPosition::Missing => "Missing"@,
        }
    }

    /// Audit text announcing a transition to this position.
    pub open spec fn transition_text(self) -> Seq<char> {
        "Status updated to "@ + self.display_text() + "."@
    }

    /// The position's lower-case display name.
    pub fn display_name(&self) -> (r: &'static str)
        ensures
            r@ == self.display_text(),
    {
        match self {
            DoorPosition::Open => "open",
            DoorPosition::Closed => "closed",
            DoorPosition::Missing => "missing",
        }
    }

    /// The position's capitalised presence name.
    pub fn presence_name(&self) -> (r: &'static str)
        ensures
            r@ == self.presence_text(),
    {
        match self {
            DoorPosition::Open => "Open",
            DoorPosition::Closed => "Closed",
            DoorPosition::Missing => "Missing",
        }
    }

    /// The audit message announcing a transition to this position.
    pub fn transition_message(&self) -> (r: String)
        ensures
            r@ == self.transition_text(),
    {
        String::from_str("Status updated to ").concat(self.display_name()).concat(".")
    }
}

/// A configuration value that must never appear in any rendered output.
#[derive(Clone)]
pub struct Secret(pub String);

/// Read-only configuration, set up once at startup.
#[derive(Clone)]
pub struct Consts {
    pub discord_token: Secret,
    pub discord_ping_loop_interval: Duration,
    pub discord_presence_loop_interval: Duration,
    pub discord_log_loop_interval: Duration,
    pub discord_ping_channel: String,
    pub discord_log_channel: String,
    pub missing_loop_interval: Duration,
    pub missing_timeout: Duration,
    pub starting_ping_interval: Duration,
}

/// How a raw duration setting is read: an absent value falls back to the
/// default, a present value must parse as a decimal number of seconds.
pub open spec fn duration_setting(v: Option<String>, default: u32) -> Option<Duration> {
    match v {
        None => Some(Duration(default)),
        Some(s) => match parsed_u32(s@) {
            Some(n) => Some(Duration(n)),
            None => None,
        },
    }
}

/// How a raw channel-name setting is read: the value itself, or the default.
pub open spec fn channel_text(v: Option<String>, default: Seq<char>) -> Seq<char> {
    match v {
        Some(s) => s@,
        None => default,
    }
}

fn get_duration(v: Option<String>, default: u32) -> (r: Option<Duration>)
    ensures
        r == duration_setting(v, default),
{
    match v {
        None => Some(Duration(default)),
        Some(s) => match parse_u32(s.as_str()) {
            Some(n) => Some(Duration(n)),
            None => None,
        },
    }
}

impl Consts {
    /// Build the configuration from raw optional settings. The token is
    /// required; every duration defaults when absent and must be a decimal
    /// number of seconds when present; the channel names default to "pings"
    /// and "log".
    pub fn new(
        discord_token: Option<String>,
        discord_ping_loop_interval: Option<String>,
        discord_presence_loop_interval: Option<String>,
        discord_log_loop_interval: Option<String>,
        discord_ping_channel: Option<String>,
        discord_log_channel: Option<String>,
        missing_loop_interval: Option<String>,
        missing_timeout: Option<String>,
        starting_ping_interval: Option<String>,
    ) -> (r: Option<Consts>)
        ensures
            r is Some <==> {
                &&& discord_token is Some
                &&& duration_setting(discord_ping_loop_interval, 1) is Some
                &&& duration_setting(discord_presence_loop_interval, 1) is Some
                &&& duration_setting(discord_log_loop_interval, 1) is Some
                &&& duration_setting(missing_loop_interval, 1) is Some
                &&& duration_setting(missing_timeout, 60) is Some
                &&& duration_setting(starting_ping_interval, 10) is Some
            },
            r matches Some(c) ==> {
                &&& Some(c.discord_token.0) == discord_token
                &&& Some(c.discord_ping_loop_interval) == duration_setting(
                    discord_ping_loop_interval,
                    1,
                )
                &&& Some(c.discord_presence_loop_interval) == duration_setting(
                    discord_presence_loop_interval,
                    1,
                )
                &&& Some(c.discord_log_loop_interval) == duration_setting(
                    discord_log_loop_interval,
                    1,
                )
                &&& c.discord_ping_channel@ == channel_text(discord_ping_channel, "pings"@)
                &&& c.discord_log_channel@ == channel_text(discord_log_channel, "log"@)
                &&& Some(c.missing_loop_interval) == duration_setting(missing_loop_interval, 1)
                &&& Some(c.missing_timeout) == duration_setting(missing_timeout, 60)
                &&& Some(c.starting_ping_interval) == duration_setting(starting_ping_interval, 10)
            },
    {
        let token = match discord_token {
            Some(t) => t,
            None => {
                return None;
            },
        };
        let ping_loop = match get_duration(discord_ping_loop_interval, 1) {
            Some(d) => d,
            None => {
                return None;
            },
        };
        let presence_loop = match get_duration(discord_presence_loop_interval, 1) {
            Some(d) => d,
            None => {
                return None;
            },
        };
        let log_loop = match get_duration(discord_log_loop_interval, 1) {
            Some(d) => d,
            None => {
                return None;
            },
        };
        let missing_loop = match get_duration(missing_loop_interval, 1) {
            Some(d) => d,
            None => {
                return None;
            },
        };
        let timeout = match get_duration(missing_timeout, 60) {
            Some(d) => d,
            None => {
                return None;
            },
        };
        let start_ping = match get_duration(starting_ping_interval, 10) {
            Some(d) => d,
            None => {
                return None;
            },
        };
        let ping_channel = match discord_ping_channel {
            Some(s) => s,
            None => String::from_str("pings"),
        };
        let log_channel = match discord_log_channel {
            Some(s) => s,
            None => String::from_str("log"),
        };
        Some(
            Consts {
                discord_token: Secret(token),
                discord_ping_loop_interval: ping_loop,
                discord_presence_loop_interval: presence_loop,
                discord_log_loop_interval: log_loop,
                discord_ping_channel: ping_channel,
                discord_log_channel: log_channel,
                missing_loop_interval: missing_loop,
                missing_timeout: timeout,
                starting_ping_interval: start_ping,
            },
        )
    }
}

/// The policy engine's one mutable record.
pub struct State {
    pub discord_init: bool,
    pub consts: Consts,
    pub status: DoorPosition,
    pub last_update: Option<i64>,
    pub open_time: Option<i64>,
    pub pings_sent: u32,
    pub current_ping_interval: Duration,
}

impl State {
    /// The backoff interval never falls below its configured base.
    pub open spec fn wf(self) -> bool {
        self.current_ping_interval.0 >= self.consts.starting_ping_interval.0
    }

    /// The state a fresh instance starts in.
    pub open spec fn initial(consts: Consts) -> State {
        State {
            discord_init: false,
            current_ping_interval: consts.starting_ping_interval,
            consts,
            status: DoorPosition::Missing,
            last_update: None,
            open_time: None,
            pings_sent: 0,
        }
    }

    /// What reporting the door open at time `now` does: status becomes
    /// `Open`, the update clock is set, and the open clock is set only if it
    /// is not already running.
    pub open spec fn open_spec(self, now: i64) -> State {
        State {
            status: DoorPosition::Open,
            last_update: Some(now),
            open_time: if self.open_time is Some {
                self.open_time
            } else {
                Some(now)
            },
            ..self
        }
    }

    /// What reporting the door closed at time `now` does: status becomes
    /// `Closed`, the update clock is set, the open clock is cleared, and the
    /// alert backoff is reset.
    pub open spec fn close_spec(self, now: i64) -> State {
        State {
            status: DoorPosition::Closed,
            last_update: Some(now),
            open_time: None,
            pings_sent: 0,
            current_ping_interval: self.consts.starting_ping_interval,
            ..self
        }
    }

    /// What an unrecognized report (or a staleness demotion) does: status
    /// becomes `Missing` and nothing else changes.
    pub open spec fn missing_spec(self) -> State {
        State { status: DoorPosition::Missing, ..self }
    }

    /// Whether the state has gone stale at time `now`: a non-missing status
    /// whose last explicit update lies further back than the timeout. A door
    /// that has never reported is not demoted; it starts out missing.
    pub open spec fn timeout_due(self, now: i64) -> bool {
        &&& self.status != DoorPosition::Missing
        &&& self.last_update matches Some(t) && now - t > self.consts.missing_timeout.0 as int
    }

    /// Whether an alert is due at time `now`: the door has been missing (by
    /// the update clock) or open (by the open clock) for longer than the
    /// current backoff interval. A closed door never alerts.
    pub open spec fn ping_due(self, now: i64) -> bool {
        match self.status {
            DoorPosition::Missing => self.last_update matches Some(t) && now - t
                > self.current_ping_interval.0 as int,
            DoorPosition::Open => self.open_time matches Some(t) && now - t
                > self.current_ping_interval.0 as int,
            DoorPosition::Closed => false,
        }
    }

    /// The alert text for the state's current condition.
    pub open spec fn ping_message(self) -> Seq<char> {
        match self.status {
            DoorPosition::Missing => "@everyone Door is missing for "@ + timedelta_text(
                self.current_ping_interval.0 as int,
            ),
            DoorPosition::Open => "@everyone Door is open for "@ + timedelta_text(
                self.current_ping_interval.0 as int,
            ),
            DoorPosition::Closed => Seq::empty(),
        }
    }

    /// What committing a sent alert does: the diagnostic count goes up by one
    /// and the backoff interval doubles.
    pub open spec fn ping_sent_spec(self) -> State {
        State {
            pings_sent: (self.pings_sent + 1) as u32,
            current_ping_interval: Duration((self.current_ping_interval.0 * 2) as u32),
            ..self
        }
    }

    /// A fresh instance: missing, with no timestamps, no alerts sent, and the
    /// backoff at its base.
    pub fn new(consts: Consts) -> (s: State)
        ensures
            s == State::initial(consts),
            s.wf(),
    {
        State {
            discord_init: false,
            current_ping_interval: Duration(consts.starting_ping_interval.0),
            consts,
            status: DoorPosition::Missing,
            last_update: None,
            open_time: None,
            pings_sent: 0,
        }
    }

    pub fn consts(&self) -> (r: &Consts)
        ensures
            *r == self.consts,
    {
        &self.consts
    }

    pub fn status(&self) -> (r: &DoorPosition)
        ensures
            *r == self.status,
    {
        &self.status
    }

    /// Report the door open at time `now`.
    pub fn open(&mut self, now: i64)
        ensures
            *final(self) == old(self).open_spec(now),
    {
        self.status = DoorPosition::Open;
        self.last_update = Some(now);
        if self.open_time.is_none() {
            self.open_time = Some(now);
        }
    }

    /// Report the door closed at time `now`.
    pub fn close(&mut self, now: i64)
        ensures
            *final(self) == old(self).close_spec(now),
    {
        self.status = DoorPosition::Closed;
        self.last_update = Some(now);
        self.open_time = None;
        self.pings_sent = 0;
        self.current_ping_interval = Duration(self.consts.starting_ping_interval.0);
    }

    /// Report an unrecognized signal: the door is missing. Timestamps and
    /// backoff are left untouched.
    pub fn missing(&mut self)
        ensures
            *final(self) == old(self).missing_spec(),
    {
        self.status = DoorPosition::Missing;
    }

    /// Demote a stale status to missing; a no-op unless the staleness bound
    /// is exceeded at `now`.
    pub fn check_timeout(&mut self, now: i64)
        ensures
            *final(self) == if old(self).timeout_due(now) {
                old(self).missing_spec()
            } else {
                *old(self)
            },
    {
        if self.status != DoorPosition::Missing {
            match self.last_update {
                None => {},
                Some(last_update) => {
                    let diff: i128 = (now as i128) - (last_update as i128);
                    if diff > (self.consts.missing_timeout.0 as i128) {
                        self.missing();
                    }
                },
            }
        }
    }

    /// Decide whether an alert is due at `now`, and if so return its text.
    /// Reads only; committing the alert is `ping_sent`'s job, so that the
    /// actual delivery can happen without holding the state.
    pub fn check_send_ping(&self, now: i64) -> (r: Option<String>)
        ensures
            r is Some <==> self.ping_due(now),
            r matches Some(m) ==> m@ == self.ping_message(),
    {
        match self.status {
            DoorPosition::Missing => {
                match self.last_update {
                    Some(t) => {
                        let diff: i128 = (now as i128) - (t as i128);
                        if diff > (self.current_ping_interval.0 as i128) {
                            Some(
                                String::from_str("@everyone Door is missing for ").concat(
                                    self.current_ping_interval.render().as_str(),
                                ),
                            )
                        } else {
                            None
                        }
                    },
                    None => None,
                }
            },
            DoorPosition::Open => {
                match self.open_time {
                    Some(t) => {
                        let diff: i128 = (now as i128) - (t as i128);
                        if diff > (self.current_ping_interval.0 as i128) {
                            Some(
                                String::from_str("@everyone Door is open for ").concat(
                                    self.current_ping_interval.render().as_str(),
                                ),
                            )
                        } else {
                            None
                        }
                    },
                    None => None,
                }
            },
            DoorPosition::Closed => None,
        }
    }

    /// Commit that an alert delivery was attempted: count it and double the
    /// backoff. Called after the attempt whether or not delivery succeeded.
    pub fn ping_sent(&mut self)
        requires
            old(self).pings_sent < u32::MAX,
            old(self).current_ping_interval.0 <= u32::MAX / 2,
        ensures
            *final(self) == old(self).ping_sent_spec(),
    {
        self.pings_sent = self.pings_sent + 1;
        self.current_ping_interval = Duration(self.current_ping_interval.0 * 2);
    }

    /// Apply one inbound signal byte: `'1'` closes, `'0'` opens, anything
    /// else is unrecognized. Returns whether the byte was recognized.
    pub fn report_code(&mut self, code: u8, now: i64) -> (recognized: bool)
        ensures
            code == 49 ==> *final(self) == old(self).close_spec(now),
            code == 48 ==> *final(self) == old(self).open_spec(now),
            !(code == 48 || code == 49) ==> *final(self) == old(self).missing_spec(),
            recognized <==> (code == 48 || code == 49),
    {
        if code == 49 {
            self.close(now);
            true
        } else if code == 48 {
            self.open(now);
            true
        } else {
            self.missing();
            false
        }
    }
}

} // verus!
