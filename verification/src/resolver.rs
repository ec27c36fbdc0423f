//! The time-bucket resolver: which capture to ask for.
//!
//! A provider publishes a capture every few minutes (its cadence) and some
//! time after the capture was taken (the safety lag). The resolver starts
//! from the newest bucket that should be published and walks back one
//! cadence at a time until a probe finds a tile, or its probes are used up.
//! The probe itself is the caller's: the resolver is told how each one ended.

use vstd::prelude::*;
use vstd::arithmetic::div_mod::lemma_fundamental_div_mod;
use vstd::arithmetic::div_mod::lemma_fundamental_div_mod_converse;
use crate::clock::now_utc_unix;

verus! {

/// The number of buckets that are probed before the resolver gives up.
pub const MAX_PROBES: u32 = 4;

/// The first second of the calendar that timestamps are rendered in.
pub const CALENDAR_MIN: i64 = -377_705_116_800;

/// The last second of the calendar that timestamps are rendered in.
pub const CALENDAR_MAX: i64 = 253_402_300_799;

/// A time of the UTC calendar, to the minute.
#[derive(Clone, Copy, Debug, PartialEq, Eq, Structural)]
pub struct UtcTime {
    pub year: i32,
    pub month: u8,
    pub day: u8,
    pub hour: u8,
    pub minute: u8,
}

/// The year, month and day of the UTC calendar on the day that lies
/// `day_number` days after the first of January 1970.
pub uninterp spec fn utc_date(day_number: int) -> (int, int, int);

/// The calendar time of a Unix timestamp, by
/// `time::OffsetDateTime::from_unix_timestamp` and the getters `year`,
/// `month`, `day`, `hour` and `minute` of its result. The claims: the call
/// succeeds between the first and the last second of the years -9999 to
/// 9999, and nowhere else; hour and minute are those of the second within its day, which the
/// function computes by Euclidean division by 86400, 3600 and 60; the date
/// is that of the day's number, a function of that number alone; month and
/// day are in the calendar's ranges.
#[verifier::external_body]
pub(crate) fn utc_from_unix(unix_seconds: i64) -> (r: Option<UtcTime>)
    ensures
        r is Some <==> CALENDAR_MIN <= unix_seconds <= CALENDAR_MAX,
        r matches Some(t) ==> {
            &&& (t.year as int, t.month as int, t.day as int) == utc_date(unix_seconds / 86400)
            &&& t.hour == (unix_seconds % 86400) / 3600
            &&& t.minute == ((unix_seconds % 86400) % 3600) / 60
            &&& 1 <= t.month <= 12
            &&& 1 <= t.day <= 31
        },
{
    match time::OffsetDateTime::from_unix_timestamp(unix_seconds) {
        Ok(t) => Some(
            UtcTime {
                year: t.year(),
                month: u8::from(t.month()),
                day: t.day(),
                hour: t.hour(),
                minute: t.minute(),
            },
        ),
        Err(_) => None,
    }
}

/// Where the resolver stands.
#[derive(Clone, Copy, Debug, PartialEq, Eq, Structural)]
pub enum ResolverState {
    /// The bucket that begins at `candidate` is to be probed; `attempt`
    /// buckets were probed before it, all in vain.
    Probing { candidate: i64, attempt: u32 },
    /// A probe found a tile of the bucket that begins at `bucket`.
    Resolved { bucket: i64 },
    /// No probe found a tile, or the inputs were unusable.
    Failed,
}

/// Whether a resolver can start: the cadence is positive and the time is
/// within the calendar.
pub open spec fn can_start(now_unix: i64, cadence_minutes: u32) -> bool {
    cadence_minutes > 0 && CALENDAR_MIN <= now_unix <= CALENDAR_MAX
}

/// The first candidate: the time rounded down to the cadence, less the safety lag.
pub open spec fn first_candidate(now_unix: int, cadence_minutes: int, lag_minutes: int) -> int {
    now_unix - now_unix % (cadence_minutes * 60) - lag_minutes * 60
}

/// The candidate of the probe of number `attempt`, counted from zero: the
/// first candidate, `attempt` cadences back.
pub open spec fn candidate_at(first: int, cadence_minutes: int, attempt: int) -> int {
    first - attempt * (cadence_minutes * 60)
}

/// The state in which a resolver starts.
pub open spec fn start_spec(now_unix: i64, cadence_minutes: u32, lag_minutes: u32) -> ResolverState {
    if can_start(now_unix, cadence_minutes) {
        ResolverState::Probing {
            candidate: first_candidate(
                now_unix as int,
                cadence_minutes as int,
                lag_minutes as int,
            ) as i64,
            attempt: 0,
        }
    } else {
        ResolverState::Failed
    }
}

/// The state after a probe ended: resolved where it found a tile, else one
/// cadence back, or failed after the last probe. The other states stay.
pub open spec fn step_spec(state: ResolverState, cadence_minutes: u32, found: bool) -> ResolverState {
    match state {
        ResolverState::Probing { candidate, attempt } => {
            if found {
                ResolverState::Resolved { bucket: candidate }
            } else if attempt + 1 < MAX_PROBES && candidate - cadence_minutes * 60 >= i64::MIN {
                ResolverState::Probing {
                    candidate: (candidate - cadence_minutes * 60) as i64,
                    attempt: (attempt + 1) as u32,
                }
            } else {
                ResolverState::Failed
            }
        },
        _ => state,
    }
}

/// The state after a row of probes ended as `outcomes` tells, one after another.
pub open spec fn run_spec(state: ResolverState, cadence_minutes: u32, outcomes: Seq<bool>) -> ResolverState
    decreases outcomes.len(),
{
    if outcomes.len() == 0 {
        state
    } else {
        run_spec(step_spec(state, cadence_minutes, outcomes[0]), cadence_minutes, outcomes.drop_first())
    }
}

/// The number of the first probe that found a tile, among the probes that
/// the resolver makes; `None` where none of them did.
pub open spec fn first_found(outcomes: Seq<bool>, from: int) -> Option<int>
    decreases outcomes.len() - from,
{
    if from < 0 || from >= outcomes.len() || from >= MAX_PROBES {
        None
    } else if outcomes[from] {
        Some(from)
    } else {
        first_found(outcomes, from + 1)
    }
}

impl ResolverState {
    /// The bucket to probe next, where there is one.
    pub fn pending_probe(&self) -> (r: Option<i64>)
        ensures
            r == match *self {
                ResolverState::Probing { candidate, .. } => Some(candidate),
                _ => None,
            },
    {
        match self {
            ResolverState::Probing { candidate, .. } => Some(*candidate),
            _ => None,
        }
    }

    /// The resolved bucket, where a probe confirmed one.
    pub fn resolved(&self) -> (r: Option<i64>)
        ensures
            r == match *self {
                ResolverState::Resolved { bucket } => Some(bucket),
                _ => None,
            },
    {
        match self {
            ResolverState::Resolved { bucket } => Some(*bucket),
            _ => None,
        }
    }
}

/// Starts a resolver at the given time for a provider of the given cadence
/// and safety lag, both in minutes.
pub fn start(now_unix: i64, cadence_minutes: u32, lag_minutes: u32) -> (state: ResolverState)
    ensures
        state == start_spec(now_unix, cadence_minutes, lag_minutes),
{
    if cadence_minutes == 0 || now_unix < CALENDAR_MIN || now_unix > CALENDAR_MAX {
        return ResolverState::Failed;
    }
    let cadence: i64 = (cadence_minutes as i64) * 60;
    let lag: i64 = (lag_minutes as i64) * 60;
    let into_bucket: i64 = seconds_into(now_unix, cadence);
    ResolverState::Probing { candidate: now_unix - into_bucket - lag, attempt: 0 }
}

/// How far `t` lies after the last multiple of `period`.
pub fn seconds_into(t: i64, period: i64) -> (r: i64)
    requires
        period > 0,
        t > i64::MIN,
    ensures
        r == t % period,
        0 <= r < period,
{
    if t >= 0 {
        t % period
    } else {
        let back: i64 = (-t) % period;
        proof {
            lemma_fundamental_div_mod(-t, period as int);
            let q = (-t) / (period as int);
            if back == 0 {
                assert(t == period * (-q) + 0) by (nonlinear_arith)
                    requires
                        -t == period * q + 0,
                ;
                lemma_fundamental_div_mod_converse(t as int, period as int, -q, 0);
            } else {
                assert(t == period * (-q - 1) + (period - back)) by (nonlinear_arith)
                    requires
                        -t == period * q + back,
                ;
                lemma_fundamental_div_mod_converse(
                    t as int,
                    period as int,
                    -q - 1,
                    period - back,
                );
            }
        }
        if back == 0 {
            0
        } else {
            period - back
        }
    }
}

/// Starts a resolver at the clock's time: it fails for a cadence of zero, and probes for any other.
pub fn start_now(cadence_minutes: u32, lag_minutes: u32) -> (state: ResolverState)
    ensures
        started_within_calendar(state, cadence_minutes, lag_minutes),
        cadence_minutes == 0 ==> state == ResolverState::Failed,
        cadence_minutes > 0 ==> (state matches ResolverState::Probing { candidate, attempt }
            && attempt == 0 && CALENDAR_MIN - (cadence_minutes + lag_minutes) * 60 < candidate
            <= CALENDAR_MAX - lag_minutes * 60),
{
    let now_unix = now_utc_unix();
    let state = start(now_unix, cadence_minutes, lag_minutes);
    assert(state == start_spec(now_unix, cadence_minutes, lag_minutes));
    state
}

/// Whether `state` is the state in which a resolver starts at some second
/// of the calendar, for the given cadence and safety lag.
pub open spec fn started_within_calendar(
    state: ResolverState,
    cadence_minutes: u32,
    lag_minutes: u32,
) -> bool {
    exists|now_unix: i64|
        CALENDAR_MIN <= now_unix <= CALENDAR_MAX && state == #[trigger] start_spec(
            now_unix,
            cadence_minutes,
            lag_minutes,
        )
}

/// Takes the resolver from one state to the next when a probe has ended.
pub fn step(state: ResolverState, cadence_minutes: u32, found: bool) -> (next: ResolverState)
    ensures
        next == step_spec(state, cadence_minutes, found),
{
    match state {
        ResolverState::Probing { candidate, attempt } => {
            if found {
                ResolverState::Resolved { bucket: candidate }
            } else if attempt < MAX_PROBES - 1 {
                match candidate.checked_sub((cadence_minutes as i64) * 60) {
                    Some(earlier) => ResolverState::Probing {
                        candidate: earlier,
                        attempt: attempt + 1,
                    },
                    None => ResolverState::Failed,
                }
            } else {
                ResolverState::Failed
            }
        },
        _ => state,
    }
}

/// Every candidate begins on a whole minute that is a multiple of the
/// cadence, where the cadence divides the hour and the safety lag is a
/// multiple of the cadence.
pub proof fn lemma_candidate_on_cadence(
    now_unix: int,
    cadence_minutes: int,
    lag_minutes: int,
    attempt: int,
)
    requires
        cadence_minutes > 0,
        60int % cadence_minutes == 0,
        lag_minutes % cadence_minutes == 0,
    ensures
        ({
            let candidate = candidate_at(
                first_candidate(now_unix, cadence_minutes, lag_minutes),
                cadence_minutes,
                attempt,
            );
            &&& candidate % 60 == 0
            &&& ((candidate % 3600) / 60) % cadence_minutes == 0
        }),
{
    let period = cadence_minutes * 60;
    let candidate = candidate_at(
        first_candidate(now_unix, cadence_minutes, lag_minutes),
        cadence_minutes,
        attempt,
    );
    let per_hour = 60int / cadence_minutes;
    let periods_of_lag = lag_minutes / cadence_minutes;
    lemma_fundamental_div_mod(now_unix, period);
    lemma_fundamental_div_mod(60, cadence_minutes);
    lemma_fundamental_div_mod(lag_minutes, cadence_minutes);
    // The candidate is a whole number of periods.
    let periods = now_unix / period - periods_of_lag - attempt;
    assert(candidate == period * periods) by (nonlinear_arith)
        requires
            candidate == now_unix - now_unix % period - lag_minutes * 60 - attempt * period,
            now_unix == period * (now_unix / period) + now_unix % period,
            lag_minutes == cadence_minutes * periods_of_lag,
            period == cadence_minutes * 60,
            periods == now_unix / period - periods_of_lag - attempt,
    ;
    assert(per_hour > 0) by (nonlinear_arith)
        requires
            60 == cadence_minutes * per_hour,
            cadence_minutes > 0,
    ;
    // Within the hour it lies a whole number of periods after the hour began.
    lemma_fundamental_div_mod(periods, per_hour);
    let hours = periods / per_hour;
    let within = periods % per_hour;
    assert(candidate == 3600 * hours + period * within && 0 <= period * within < 3600 && period
        * within == 60 * (cadence_minutes * within) && 0 <= cadence_minutes * within)
        by (nonlinear_arith)
        requires
            candidate == period * periods,
            periods == per_hour * hours + within,
            0 <= within < per_hour,
            60 == cadence_minutes * per_hour,
            period == cadence_minutes * 60,
            cadence_minutes > 0,
    ;
    lemma_fundamental_div_mod_converse(candidate, 3600, hours, period * within);
    lemma_fundamental_div_mod_converse(period * within, 60, cadence_minutes * within, 0);
    assert(candidate == 60 * (cadence_minutes * periods) + 0) by (nonlinear_arith)
        requires
            candidate == period * periods,
            period == cadence_minutes * 60,
    ;
    lemma_fundamental_div_mod_converse(candidate, 60, cadence_minutes * periods, 0);
    lemma_fundamental_div_mod_converse(cadence_minutes * within, cadence_minutes, within, 0);
}

/// A resolved or failed resolver stays as it is, whatever is reported to it.
pub proof fn lemma_ended_stays(state: ResolverState, cadence_minutes: u32, outcomes: Seq<bool>)
    requires
        !(state is Probing),
    ensures
        run_spec(state, cadence_minutes, outcomes) == state,
    decreases outcomes.len(),
{
    if outcomes.len() > 0 {
        lemma_ended_stays(state, cadence_minutes, outcomes.drop_first());
    }
}

/// What the first probe to find a tile is: it found one, it is among the
/// probes that the resolver makes, and none before it found one. Where
/// there is none, no probe that the resolver makes found a tile.
pub proof fn lemma_first_found(outcomes: Seq<bool>, from: int)
    requires
        0 <= from,
    ensures
        match first_found(outcomes, from) {
            Some(i) => {
                &&& from <= i < outcomes.len()
                &&& i < MAX_PROBES
                &&& outcomes[i]
                &&& forall|j: int| from <= j < i ==> !outcomes[j]
            },
            None => forall|j: int| from <= j < outcomes.len() && j < MAX_PROBES ==> !outcomes[j],
        },
    decreases outcomes.len() - from,
{
    if from < outcomes.len() && from < MAX_PROBES && !outcomes[from] {
        lemma_first_found(outcomes, from + 1);
    }
}

/// The state that a resolver reaches from its start when its probes end as
/// `outcomes` tells.
pub open spec fn outcome_spec(
    now_unix: i64,
    cadence_minutes: u32,
    lag_minutes: u32,
    outcomes: Seq<bool>,
) -> ResolverState {
    let first = first_candidate(now_unix as int, cadence_minutes as int, lag_minutes as int);
    match first_found(outcomes, 0) {
        Some(i) => ResolverState::Resolved {
            bucket: candidate_at(first, cadence_minutes as int, i) as i64,
        },
        None => if outcomes.len() >= MAX_PROBES {
            ResolverState::Failed
        } else {
            ResolverState::Probing {
                candidate: candidate_at(first, cadence_minutes as int, outcomes.len() as int) as i64,
                attempt: outcomes.len() as u32,
            }
        },
    }
}

/// From the probe of number `attempt` on, a resolver does what the first
/// probe to find a tile decides.
proof fn lemma_run_from(
    first: int,
    cadence_minutes: u32,
    attempt: int,
    outcomes: Seq<bool>,
)
    requires
        cadence_minutes > 0,
        -0x400_0000_0000 <= first <= 0x400_0000_0000,
        0 <= attempt <= outcomes.len(),
        attempt < MAX_PROBES,
    ensures
        run_spec(
            ResolverState::Probing {
                candidate: candidate_at(first, cadence_minutes as int, attempt) as i64,
                attempt: attempt as u32,
            },
            cadence_minutes,
            outcomes.skip(attempt),
        ) == match first_found(outcomes, attempt) {
            Some(i) => ResolverState::Resolved {
                bucket: candidate_at(first, cadence_minutes as int, i) as i64,
            },
            None => if outcomes.len() >= MAX_PROBES {
                ResolverState::Failed
            } else {
                ResolverState::Probing {
                    candidate: candidate_at(
                        first,
                        cadence_minutes as int,
                        outcomes.len() as int,
                    ) as i64,
                    attempt: outcomes.len() as u32,
                }
            },
        },
    decreases outcomes.len() - attempt,
{
    let period = cadence_minutes * 60;
    let rest = outcomes.skip(attempt);
    let state = ResolverState::Probing {
        candidate: candidate_at(first, cadence_minutes as int, attempt) as i64,
        attempt: attempt as u32,
    };
    assert(0 <= attempt * period <= 3 * period && (attempt + 1) * period == attempt * period
        + period) by (nonlinear_arith)
        requires
            0 <= attempt <= 3,
            0 <= period,
    ;
    if attempt < outcomes.len() {
        assert(rest.len() > 0 && rest[0] == outcomes[attempt]);
        assert(rest.drop_first() =~= outcomes.skip(attempt + 1));
        let next = step_spec(state, cadence_minutes, rest[0]);
        if outcomes[attempt] {
            lemma_ended_stays(next, cadence_minutes, rest.drop_first());
        } else if attempt + 1 < MAX_PROBES {
            lemma_run_from(first, cadence_minutes, attempt + 1, outcomes);
        } else {
            lemma_ended_stays(next, cadence_minutes, rest.drop_first());
        }
    }
}

/// A resolver that starts at a time of the calendar ends as the first probe
/// to find a tile decides: resolved to that probe's bucket; failed where the
/// last probe was made and none found a tile; else still probing.
pub proof fn lemma_run_outcome(
    now_unix: i64,
    cadence_minutes: u32,
    lag_minutes: u32,
    outcomes: Seq<bool>,
)
    requires
        can_start(now_unix, cadence_minutes),
    ensures
        run_spec(start_spec(now_unix, cadence_minutes, lag_minutes), cadence_minutes, outcomes)
            == outcome_spec(now_unix, cadence_minutes, lag_minutes, outcomes),
{
    let first = first_candidate(now_unix as int, cadence_minutes as int, lag_minutes as int);
    assert(outcomes.skip(0) =~= outcomes);
    lemma_run_from(first, cadence_minutes, 0, outcomes);
}

/// A resolver never returns a bucket that no probe confirmed: where it ends
/// resolved, one of its probes found a tile, none before that one did, and
/// the bucket is that probe's candidate.
pub proof fn lemma_resolved_was_confirmed(
    now_unix: i64,
    cadence_minutes: u32,
    lag_minutes: u32,
    outcomes: Seq<bool>,
)
    requires
        can_start(now_unix, cadence_minutes),
    ensures
        run_spec(
            start_spec(now_unix, cadence_minutes, lag_minutes),
            cadence_minutes,
            outcomes,
        ) matches ResolverState::Resolved { bucket } ==> exists|i: int|
            {
                &&& 0 <= i < outcomes.len()
                &&& i < MAX_PROBES
                &&& #[trigger] outcomes[i]
                &&& forall|j: int| 0 <= j < i ==> !outcomes[j]
                &&& bucket == candidate_at(
                    first_candidate(
                        now_unix as int,
                        cadence_minutes as int,
                        lag_minutes as int,
                    ),
                    cadence_minutes as int,
                    i,
                )
            },
{
    lemma_run_outcome(now_unix, cadence_minutes, lag_minutes, outcomes);
    lemma_first_found(outcomes, 0);
    let first = first_candidate(now_unix as int, cadence_minutes as int, lag_minutes as int);
    match first_found(outcomes, 0) {
        Some(i) => {
            let period = cadence_minutes * 60;
            assert(0 <= i * period <= 3 * period) by (nonlinear_arith)
                requires
                    0 <= i <= 3,
                    0 <= period,
            ;
            assert(outcomes[i]);
        },
        None => {},
    }
}

/// Where the first three probes find nothing and the fourth finds a tile,
/// the resolver returns the fourth candidate; where all four find nothing,
/// it fails.
pub proof fn lemma_fourth_probe_decides(
    now_unix: i64,
    cadence_minutes: u32,
    lag_minutes: u32,
    outcomes: Seq<bool>,
)
    requires
        can_start(now_unix, cadence_minutes),
        outcomes.len() >= 4,
        !outcomes[0],
        !outcomes[1],
        !outcomes[2],
    ensures
        run_spec(start_spec(now_unix, cadence_minutes, lag_minutes), cadence_minutes, outcomes)
            == if outcomes[3] {
            ResolverState::Resolved {
                bucket: (first_candidate(
                    now_unix as int,
                    cadence_minutes as int,
                    lag_minutes as int,
                ) - 3 * (cadence_minutes * 60)) as i64,
            }
        } else {
            ResolverState::Failed
        },
{
    lemma_run_outcome(now_unix, cadence_minutes, lag_minutes, outcomes);
    reveal_with_fuel(first_found, 5);
}

} // verus!
