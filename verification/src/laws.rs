//! Laws of the policy engine, stated and proved over the transition
//! specifications that the executable operations are verified against.

use vstd::prelude::*;
use vstd::arithmetic::power2::{lemma_pow2_unfold, pow2};

use crate::state::{DoorPosition, State};

verus! {

/// One explicit report delivered to the policy engine.
pub enum Report {
    Open(i64),
    Closed(i64),
    Unrecognized,
}

impl Report {
    /// The status a report sets.
    pub open spec fn status(self) -> DoorPosition {
        match self {
            Report::Open(_) => DoorPosition::Open,
            Report::Closed(_) => DoorPosition::Closed,
            Report::Unrecognized => DoorPosition::Missing,
        }
    }
}

/// The state after one report.
pub open spec fn apply_report(s: State, r: Report) -> State {
    match r {
        Report::Open(now) => s.open_spec(now),
        Report::Closed(now) => s.close_spec(now),
        Report::Unrecognized => s.missing_spec(),
    }
}

/// The state after a sequence of reports, applied in order.
pub open spec fn apply_reports(s: State, rs: Seq<Report>) -> State
    decreases rs.len(),
{
    if rs.len() == 0 {
        s
    } else {
        apply_report(apply_reports(s, rs.drop_last()), rs.last())
    }
}

/// Reports are last-write-wins: after any nonempty sequence of reports, the
/// status is exactly the one the most recent report set.
pub proof fn lemma_status_last_write(s: State, rs: Seq<Report>)
    requires
        rs.len() > 0,
    ensures
        apply_reports(s, rs).status == rs.last().status(),
{
}

/// A closed report always resets the alert diagnostics: no pings counted and
/// the backoff back at its configured base, regardless of prior history.
pub proof fn lemma_closed_resets(s: State, now: i64)
    ensures
        s.close_spec(now).pings_sent == 0,
        s.close_spec(now).current_ping_interval == s.consts.starting_ping_interval,
{
}

/// Reporting the door open twice without an intervening close leaves the
/// open clock where the first report put it.
pub proof fn lemma_open_keeps_open_time(s: State, t1: i64, t2: i64)
    ensures
        s.open_spec(t1).open_spec(t2).open_time == s.open_spec(t1).open_time,
{
}

/// The staleness check is a no-op on a missing status, a no-op while the
/// last update is within the timeout (or there has never been one), and
/// demotes to missing exactly when the bound is exceeded.
pub proof fn lemma_timeout_exact(s: State, now: i64)
    ensures
        s.status is Missing ==> !s.timeout_due(now),
        s.last_update is None ==> !s.timeout_due(now),
        s.last_update matches Some(t) ==> (s.timeout_due(now) <==> (s.status !is Missing && now - t
            > s.consts.missing_timeout.0 as int)),
{
}

/// While the door is closed no alert is ever due, whatever the clocks say.
pub proof fn lemma_closed_never_due(s: State, now: i64)
    requires
        s.status is Closed,
    ensures
        !s.ping_due(now),
{
}

/// An unrecognized report changes the status to missing and nothing else.
pub proof fn lemma_unrecognized_touches_nothing(s: State)
    ensures
        s.missing_spec().status is Missing,
        s.missing_spec().last_update == s.last_update,
        s.missing_spec().open_time == s.open_time,
        s.missing_spec().pings_sent == s.pings_sent,
        s.missing_spec().current_ping_interval == s.current_ping_interval,
        s.missing_spec().consts == s.consts,
{
}

/// No sequence of reports can drive the backoff below its configured base.
pub proof fn lemma_reports_keep_wf(s: State, rs: Seq<Report>)
    requires
        s.wf(),
    ensures
        apply_reports(s, rs).wf(),
        apply_reports(s, rs).consts == s.consts,
    decreases rs.len(),
{
    if rs.len() > 0 {
        lemma_reports_keep_wf(s, rs.drop_last());
    }
}

/// The state after `n` committed alerts.
pub open spec fn after_pings(s: State, n: nat) -> State
    decreases n,
{
    if n == 0 {
        s
    } else {
        after_pings(s, (n - 1) as nat).ping_sent_spec()
    }
}

/// The backoff doubles exactly once per committed alert: starting from a
/// backoff of `B` seconds, after `n` commits it is `B * 2^n` seconds, and the
/// diagnostic count has grown by `n`. (Bounded so that neither doubling nor
/// counting wraps.)
pub proof fn lemma_backoff_doubles(s: State, n: nat)
    requires
        s.current_ping_interval.0 * pow2(n) <= u32::MAX,
        s.pings_sent + n <= u32::MAX,
    ensures
        after_pings(s, n).current_ping_interval.0 == s.current_ping_interval.0 * pow2(n),
        after_pings(s, n).pings_sent == s.pings_sent + n,
        after_pings(s, n).status == s.status,
        after_pings(s, n).last_update == s.last_update,
        after_pings(s, n).open_time == s.open_time,
        after_pings(s, n).consts == s.consts,
    decreases n,
{
    if n == 0 {
        assert(pow2(0) == 1) by {
            vstd::arithmetic::power2::lemma2_to64();
        }
    } else {
        let m: nat = (n - 1) as nat;
        lemma_pow2_unfold(n);
        assert(pow2(n) == 2 * pow2(m));
        assert(s.current_ping_interval.0 * pow2(m) <= u32::MAX) by (nonlinear_arith)
            requires
                s.current_ping_interval.0 * pow2(n) <= u32::MAX,
                pow2(n) == 2 * pow2(m),
                s.current_ping_interval.0 >= 0,
                pow2(m) >= 0,
        ;
        lemma_backoff_doubles(s, m);
        assert(after_pings(s, n) == after_pings(s, m).ping_sent_spec());
        assert(s.current_ping_interval.0 * pow2(m) * 2 == s.current_ping_interval.0 * pow2(n))
            by (nonlinear_arith)
            requires
                pow2(n) == 2 * pow2(m),
        ;
    }
}

/// Every operation keeps the backoff at or above its configured base, and no
/// operation but a close ever lowers it: the backoff is monotone between
/// closes.
pub proof fn lemma_backoff_monotone(s: State, now: i64)
    requires
        s.wf(),
    ensures
        s.open_spec(now).wf(),
        s.close_spec(now).wf(),
        s.missing_spec().wf(),
        s.open_spec(now).current_ping_interval == s.current_ping_interval,
        s.missing_spec().current_ping_interval == s.current_ping_interval,
        s.current_ping_interval.0 * 2 <= u32::MAX ==> s.ping_sent_spec().wf()
            && s.ping_sent_spec().current_ping_interval.0 >= s.current_ping_interval.0,
{
}

} // verus!
