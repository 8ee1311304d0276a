//! The rules of the notebook lifecycle: which notebooks are shut down for
//! being idle, and when this pod takes its turn to look.
use vstd::prelude::*;

use crate::text::{chars_of, lemma_split_nonempty, split_chars, split_spec, views};

verus! {

/// A notebook idle for this many seconds is shut down.
pub const MAX_IDLE_TIME: u64 = 86400;

/// Nanoseconds in a second.
pub const NANOS_PER_SECOND: i128 = 1_000_000_000;

/// A kernel of a running notebook, as its server reports it.
#[derive(Debug)]
pub struct Kernel {
    pub last_activity: String,
    pub connections: u32,
}

/// The layout of a kernel's `last_activity`, in the format description
/// language of `time`: `YYYY-MM-DDTHH:MM:SS.ffffffZ`.
pub const ACTIVITY_FORMAT: &'static str =
    "[year]-[month]-[day]T[hour]:[minute]:[second].[subsecond digits:6]Z";

/// The instant, in nanoseconds since the Unix epoch, that `time` reads from
/// `s` laid out as the format description `fmt` and taken as UTC; `None`
/// when the description or the text does not parse.
pub uninterp spec fn utc_instant_nanos(s: Seq<char>, fmt: Seq<char>) -> Option<int>;

/// Calls `time::format_description::parse` on `fmt` and
/// `time::PrimitiveDateTime::parse` on `s` with it, and reads the date and
/// time as UTC (`assume_utc`, `unix_timestamp_nanos`). The instant is named
/// by `utc_instant_nanos`; which texts parse is left to the name.
#[verifier::external_body]
fn parse_utc_nanos(s: &str, fmt: &str) -> (r: Option<i128>)
    ensures
        r is Some <==> utc_instant_nanos(s@, fmt@) is Some,
        r matches Some(t) ==> utc_instant_nanos(s@, fmt@) == Some(t as int),
{
    match time::format_description::parse(fmt) {
        Ok(items) => match time::PrimitiveDateTime::parse(s, &items) {
            Ok(t) => Some(t.assume_utc().unix_timestamp_nanos()),
            Err(_) => None,
        },
        Err(_) => None,
    }
}

/// The instant a kernel's `last_activity` names, in nanoseconds since the
/// Unix epoch, when it follows `ACTIVITY_FORMAT`.
pub open spec fn activity_instant(s: Seq<char>) -> Option<int> {
    utc_instant_nanos(s, ACTIVITY_FORMAT@)
}

/// Reads the instant of a kernel's last activity, in nanoseconds since the
/// Unix epoch, or `None` when the text does not follow `ACTIVITY_FORMAT`.
pub fn parse_activity(s: &str) -> (r: Option<i128>)
    ensures
        r is Some <==> activity_instant(s@) is Some,
        r matches Some(t) ==> activity_instant(s@) == Some(t as int),
{
    parse_utc_nanos(s, ACTIVITY_FORMAT)
}

/// What a user's record says of the notebook: when it was started, and
/// whether its volume outlives it.
#[derive(Debug, Clone, Copy, PartialEq, Eq, Structural)]
pub struct NotebookRecord {
    pub start_time: Option<i128>,
    pub persist_pvc: bool,
}

/// `now` is at least the maximum idle time after `t` (both in nanoseconds).
pub open spec fn idle_since(now: int, t: int) -> bool {
    now - t >= MAX_IDLE_TIME as int * NANOS_PER_SECOND as int
}

/// The instant a kernel counts as last active: its reported activity, or
/// `now` when that cannot be read.
pub open spec fn kernel_instant(k: Kernel, now: int) -> int {
    match activity_instant(k.last_activity@) {
        Some(t) => t,
        None => now,
    }
}

/// The latest activity among the kernels that have no connection.
pub open spec fn latest_idle_activity(ks: Seq<Kernel>, now: int) -> Option<int>
    decreases ks.len(),
{
    if ks.len() == 0 {
        None
    } else {
        let rest = latest_idle_activity(ks.drop_last(), now);
        if ks.last().connections == 0 {
            let t = kernel_instant(ks.last(), now);
            match rest {
                None => Some(t),
                Some(r) => Some(
                    if t > r {
                        t
                    } else {
                        r
                    },
                ),
            }
        } else {
            rest
        }
    }
}

/// Whether a notebook is shut down, and then whether its volume is kept: a
/// notebook without kernels goes by its start time (and goes, volume and
/// all, when its record has none); one with kernels goes by the latest
/// activity of its unconnected kernels and stays while every kernel is
/// connected.
pub open spec fn shutdown_decision(ks: Seq<Kernel>, notebook: Option<NotebookRecord>, now: int) -> Option<
    bool,
> {
    if ks.len() == 0 {
        match notebook {
            Some(n) => match n.start_time {
                Some(t) => if idle_since(now, t as int) {
                    Some(n.persist_pvc)
                } else {
                    None
                },
                None => Some(false),
            },
            None => Some(false),
        }
    } else {
        match latest_idle_activity(ks, now) {
            Some(t) => if idle_since(now, t) {
                Some(
                    match notebook {
                        Some(n) => n.persist_pvc,
                        None => false,
                    },
                )
            } else {
                None
            },
            None => None,
        }
    }
}

fn is_idle(now: i128, t: i128) -> (r: bool)
    ensures
        r == idle_since(now as int, t as int),
{
    let limit: i128 = (MAX_IDLE_TIME as i128) * NANOS_PER_SECOND;
    if t <= i128::MAX - limit {
        now >= t + limit
    } else {
        false
    }
}

/// The latest activity of the unconnected kernels, at `now` in nanoseconds.
pub fn latest_activity(kernels: &Vec<Kernel>, now: i128) -> (r: Option<i128>)
    ensures
        match r {
            Some(t) => latest_idle_activity(kernels@, now as int) == Some(t as int),
            None => latest_idle_activity(kernels@, now as int) is None,
        },
{
    let mut latest: Option<i128> = None;
    let mut i: usize = 0;
    while i < kernels.len()
        invariant
            i <= kernels@.len(),
            match latest {
                Some(t) => latest_idle_activity(kernels@.take(i as int), now as int) == Some(t as int),
                None => latest_idle_activity(kernels@.take(i as int), now as int) is None,
            },
        decreases kernels@.len() - i,
    {
        assert(kernels@.take(i + 1).drop_last() =~= kernels@.take(i as int));
        let k = &kernels[i];
        if k.connections == 0 {
            let t = match parse_activity(k.last_activity.as_str()) {
                Some(t) => t,
                None => now,
            };
            latest = match latest {
                None => Some(t),
                Some(r) => Some(if t > r { t } else { r }),
            };
        }
        i = i + 1;
    }
    assert(kernels@.take(kernels@.len() as int) =~= kernels@);
    latest
}

/// Decides whether a running notebook is shut down for being idle, at `now`
/// in nanoseconds since the Unix epoch: `None` keeps it, `Some(persist)`
/// shuts it down and says whether its volume is kept.
pub fn idle_shutdown(kernels: &Vec<Kernel>, notebook: &Option<NotebookRecord>, now: i128) -> (r:
    Option<bool>)
    ensures
        r == shutdown_decision(kernels@, *notebook, now as int),
{
    if kernels.len() == 0 {
        match notebook {
            Some(n) => match n.start_time {
                Some(t) => if is_idle(now, t) {
                    Some(n.persist_pvc)
                } else {
                    None
                },
                None => Some(false),
            },
            None => Some(false),
        }
    } else {
        match latest_activity(kernels, now) {
            Some(t) => if is_idle(now, t) {
                Some(
                    match notebook {
                        Some(n) => n.persist_pvc,
                        None => false,
                    },
                )
            } else {
                None
            },
            None => None,
        }
    }
}

/// The subject a notebook pod belongs to: its name up to the first `-`.
pub fn pod_subject(pod_name: &str) -> (r: String)
    ensures
        r@ == split_spec(pod_name@, "-"@)[0],
{
    let c = chars_of(pod_name);
    let dash = chars_of("-");
    let parts = split_chars(c.as_slice(), dash.as_slice());
    proof {
        lemma_split_nonempty(pod_name@, "-"@);
    }
    assert(views(parts@)[0] == parts@[0]@);
    parts[0].clone()
}

/// Every kernel without a connection reports a readable instant.
pub open spec fn idle_kernels_readable(ks: Seq<Kernel>) -> bool {
    forall|i: int| 0 <= i < ks.len() && (#[trigger] ks[i]).connections == 0 ==> activity_instant(
        ks[i].last_activity@,
    ) is Some
}

proof fn lemma_latest_independent_of_now(ks: Seq<Kernel>, now1: int, now2: int)
    requires
        idle_kernels_readable(ks),
    ensures
        latest_idle_activity(ks, now1) == latest_idle_activity(ks, now2),
    decreases ks.len(),
{
    if ks.len() > 0 {
        assert(idle_kernels_readable(ks.drop_last())) by {
            assert forall|i: int|
                0 <= i < ks.drop_last().len() && (#[trigger] ks.drop_last()[i]).connections
                    == 0 implies activity_instant(ks.drop_last()[i].last_activity@) is Some by {
                assert(ks.drop_last()[i] == ks[i]);
            }
        }
        lemma_latest_independent_of_now(ks.drop_last(), now1, now2);
        assert(ks.last() == ks[ks.len() - 1]);
    }
}

/// A notebook that is shut down at some moment is shut down, keeping or
/// dropping its volume alike, at every later moment, as long as the kernels
/// without connections report readable instants.
pub proof fn lemma_shutdown_persists(
    ks: Seq<Kernel>,
    notebook: Option<NotebookRecord>,
    now: int,
    later: int,
)
    requires
        now <= later,
        idle_kernels_readable(ks),
        shutdown_decision(ks, notebook, now) is Some,
    ensures
        shutdown_decision(ks, notebook, later) == shutdown_decision(ks, notebook, now),
{
    lemma_latest_independent_of_now(ks, now, later);
}

/// A notebook whose kernels all have a connection is never shut down.
pub proof fn lemma_connected_notebook_stays(ks: Seq<Kernel>, notebook: Option<NotebookRecord>, now: int)
    requires
        ks.len() > 0,
        forall|i: int| 0 <= i < ks.len() ==> (#[trigger] ks[i]).connections > 0,
    ensures
        shutdown_decision(ks, notebook, now) is None,
{
    lemma_latest_none_when_connected(ks, now);
}

proof fn lemma_latest_none_when_connected(ks: Seq<Kernel>, now: int)
    requires
        forall|i: int| 0 <= i < ks.len() ==> (#[trigger] ks[i]).connections > 0,
    ensures
        latest_idle_activity(ks, now) is None,
    decreases ks.len(),
{
    if ks.len() > 0 {
        assert forall|i: int| 0 <= i < ks.drop_last().len() implies (
        #[trigger] ks.drop_last()[i]).connections > 0 by {
            assert(ks.drop_last()[i] == ks[i]);
        }
        lemma_latest_none_when_connected(ks.drop_last(), now);
        assert(ks.last() == ks[ks.len() - 1]);
    }
}

/// The latest idle activity is the latest instant of all the kernels without
/// a connection, whatever order they are listed in: there is one exactly when
/// some kernel has no connection, every such kernel's instant is at most it,
/// and it is the instant of one of them.
pub proof fn lemma_latest_is_maximum(ks: Seq<Kernel>, now: int)
    ensures
        latest_idle_activity(ks, now) is Some <==> exists|i: int|
            0 <= i < ks.len() && (#[trigger] ks[i]).connections == 0,
        latest_idle_activity(ks, now) matches Some(t) ==> {
            &&& forall|i: int|
                0 <= i < ks.len() && (#[trigger] ks[i]).connections == 0 ==> kernel_instant(
                    ks[i],
                    now,
                ) <= t
            &&& exists|i: int|
                0 <= i < ks.len() && (#[trigger] ks[i]).connections == 0 && kernel_instant(
                    ks[i],
                    now,
                ) == t
        },
    decreases ks.len(),
{
    if ks.len() > 0 {
        let init = ks.drop_last();
        lemma_latest_is_maximum(init, now);
        let n = ks.len() - 1;
        assert(ks.last() == ks[n]);
        assert forall|i: int| 0 <= i < init.len() implies #[trigger] init[i] == ks[i] by {}
        if latest_idle_activity(init, now) is Some {
            let j = choose|j: int| 0 <= j < init.len() && (#[trigger] init[j]).connections == 0;
            assert(init[j] == ks[j]);
        }
        if exists|i: int| 0 <= i < ks.len() && (#[trigger] ks[i]).connections == 0 {
            if ks[n].connections != 0 {
                let j = choose|j: int| 0 <= j < ks.len() && (#[trigger] ks[j]).connections == 0;
                assert(j < n);
                assert(init[j] == ks[j]);
            }
        }
        match latest_idle_activity(ks, now) {
            Some(t) => {
                assert forall|i: int|
                    0 <= i < ks.len() && (#[trigger] ks[i]).connections == 0 implies kernel_instant(
                    ks[i],
                    now,
                ) <= t by {
                    if i < n {
                        assert(init[i] == ks[i]);
                    }
                }
                if ks[n].connections == 0 && t == kernel_instant(ks[n], now) {
                    assert(ks[n].connections == 0 && kernel_instant(ks[n], now) == t);
                } else {
                    let r = latest_idle_activity(init, now)->0;
                    let j = choose|j: int|
                        0 <= j < init.len() && (#[trigger] init[j]).connections == 0
                            && kernel_instant(init[j], now) == r;
                    assert(init[j] == ks[j]);
                    assert(ks[j].connections == 0 && kernel_instant(ks[j], now) == t);
                }
            },
            None => {},
        }
    }
}

/// A notebook with a kernel that has no connection and was active within
/// the maximum idle time is kept, whatever its other kernels report and
/// whatever order they come in.
pub proof fn lemma_recent_kernel_keeps_notebook(
    ks: Seq<Kernel>,
    notebook: Option<NotebookRecord>,
    now: int,
    i: int,
)
    requires
        0 <= i < ks.len(),
        ks[i].connections == 0,
        !idle_since(now, kernel_instant(ks[i], now)),
    ensures
        shutdown_decision(ks, notebook, now) is None,
{
    lemma_latest_is_maximum(ks, now);
    assert(ks[i].connections == 0);
}

/// What the lifecycle does next, once it is awake.
#[derive(Debug, Clone, Copy, PartialEq, Eq, Structural)]
pub enum Phase {
    /// Try to take the lease that lets one pod run the lifecycle.
    Lease,
    /// Run the lifecycle (this pod holds the lease).
    Stream,
    /// Nothing to do until the next wake-up.
    Rest,
}

/// The schedule of the lifecycle: when it runs next (microseconds since the
/// Unix epoch), whether it slept since its last look, and whether this pod
/// holds the lease.
#[derive(Debug, Clone, Copy, PartialEq, Eq, Structural)]
pub struct MediumState {
    pub expiration: i64,
    pub slept: bool,
    pub leased: bool,
    /// The time between two runs, in microseconds.
    pub exp_min: i64,
}

/// The instant `exp_min` after `now`, held at the ends of the clock's
/// range.
pub open spec fn due(now: i64, exp_min: i64) -> i64 {
    if now + exp_min > i64::MAX {
        i64::MAX
    } else if now + exp_min < i64::MIN {
        i64::MIN
    } else {
        (now + exp_min) as i64
    }
}

/// `exp_min` after `now`, held at the ends of the clock's range.
fn due_after(now: i64, exp_min: i64) -> (r: i64)
    ensures
        r == due(now, exp_min),
{
    match now.checked_add(exp_min) {
        Some(v) => v,
        None => if exp_min > 0 {
            i64::MAX
        } else {
            i64::MIN
        },
    }
}

/// What the lifecycle does at `now` in state `s`.
pub open spec fn phase_at(s: MediumState, now: i64) -> Phase {
    if now < s.expiration {
        Phase::Rest
    } else if s.leased {
        Phase::Stream
    } else {
        Phase::Lease
    }
}

impl MediumState {
    /// A schedule whose first run is due `exp_min` after `now`.
    pub fn new(now: i64, exp_min: i64) -> (r: Self)
        ensures
            r == (MediumState { expiration: due(now, exp_min), slept: false, leased: false, exp_min }),
    {
        MediumState { expiration: due_after(now, exp_min), slept: false, leased: false, exp_min }
    }

    /// The sleep timer fired.
    pub fn wake(&mut self)
        ensures
            *final(self) == (MediumState { slept: true, ..*old(self) }),
    {
        self.slept = true;
    }

    /// What to do at `now`: nothing before the run is due; when it is due,
    /// run if this pod holds the lease, or else try to take it.
    pub fn phase(&self, now: i64) -> (r: Phase)
        ensures
            r == phase_at(*self, now),
    {
        if now < self.expiration {
            Phase::Rest
        } else if self.leased {
            Phase::Stream
        } else {
            Phase::Lease
        }
    }

    /// The lease attempt ended: this pod holds it when it `acquired` it, and
    /// otherwise tries again `exp_min` after `now`. Says whether to run now.
    pub fn lease_result(&mut self, acquired: bool, now: i64) -> (r: bool)
        ensures
            r == acquired,
            acquired ==> *final(self) == (MediumState { leased: true, ..*old(self) }),
            !acquired ==> *final(self) == (MediumState {
                expiration: due(now, old(self).exp_min),
                ..*old(self)
            }),
    {
        if acquired {
            self.leased = true;
        } else {
            self.expiration = due_after(now, self.exp_min);
        }
        acquired
    }

    /// A run finished at `now`: the lease is given up and the next run is
    /// due `exp_min` later.
    pub fn run_finished(&mut self, now: i64)
        ensures
            *final(self) == (MediumState {
                expiration: due(now, old(self).exp_min),
                leased: false,
                ..*old(self)
            }),
    {
        self.expiration = due_after(now, self.exp_min);
        self.leased = false;
    }

    /// The look is over; the lifecycle sleeps again.
    pub fn rest(&mut self)
        ensures
            *final(self) == (MediumState { slept: false, ..*old(self) }),
    {
        self.slept = false;
    }
}

/// A pod that could not take the lease, or that finished a run, does
/// nothing before the schedule's interval has passed, and only the pod that
/// holds the lease runs the lifecycle.
pub proof fn lemma_schedule_waits(s: MediumState, now: i64, later: i64)
    requires
        later < due(now, s.exp_min),
    ensures
        phase_at(MediumState { expiration: due(now, s.exp_min), ..s }, later) == Phase::Rest,
        phase_at(
            MediumState { expiration: due(now, s.exp_min), leased: false, ..s },
            later,
        ) == Phase::Rest,
        phase_at(s, later) == Phase::Stream ==> s.leased,
{
}

/// The outcome of polling a future or a stream: ready with a value, or not
/// yet.
#[derive(Debug, Clone, Copy, PartialEq, Eq, Structural)]
pub enum Polled<T> {
    Ready(T),
    Pending,
}

/// Whether the lifecycle is over after a poll.
#[derive(Debug, Clone, Copy, PartialEq, Eq, Structural)]
pub enum MediumPoll {
    /// The shutdown signal came, or the lifecycle stream ended.
    Finished,
    /// Wake again later.
    Pending,
}

/// One poll of the lifecycle at `now`, given what the sleep timer, the
/// shutdown signal, the lease attempt (`true` when the lease was taken)
/// and the lifecycle stream (`true` for a finished run, `false` for its
/// end) report. The lease attempt is consulted only when a run is due and
/// the pod holds no lease, the stream only when the pod holds the lease.
/// The state after the poll, and whether the lifecycle is over.
pub open spec fn medium_poll(
    s: MediumState,
    sleep_ready: bool,
    sigterm_ready: bool,
    now: i64,
    lease: Polled<bool>,
    run: Polled<bool>,
) -> (MediumState, MediumPoll) {
    let next = due(now, s.exp_min);
    if !s.slept && !sleep_ready {
        (s, MediumPoll::Pending)
    } else if sigterm_ready {
        (MediumState { slept: true, ..s }, MediumPoll::Finished)
    } else if now < s.expiration {
        (MediumState { slept: false, ..s }, MediumPoll::Pending)
    } else {
        let woke = MediumState { slept: true, ..s };
        let after_lease = if s.leased {
            Some(woke)
        } else {
            match lease {
                Polled::Pending => None,
                Polled::Ready(true) => Some(MediumState { leased: true, ..woke }),
                Polled::Ready(false) => Some(MediumState { expiration: next, ..woke }),
            }
        };
        match after_lease {
            None => (woke, MediumPoll::Pending),
            Some(t) => if !t.leased {
                (MediumState { slept: false, ..t }, MediumPoll::Pending)
            } else {
                match run {
                    Polled::Pending => (t, MediumPoll::Pending),
                    Polled::Ready(false) => (t, MediumPoll::Finished),
                    Polled::Ready(true) => (
                        MediumState { expiration: next, leased: false, slept: false, ..t },
                        MediumPoll::Pending,
                    ),
                }
            },
        }
    }
}

impl MediumState {
    /// Polls the lifecycle once: it waits for its timer, stops on the
    /// shutdown signal, and when a run is due takes the lease first and
    /// then runs; after a finished run it gives the lease up and schedules
    /// the next. It stops too when the lifecycle stream ends.
    pub fn poll(
        &mut self,
        sleep_ready: bool,
        sigterm_ready: bool,
        now: i64,
        lease: Polled<bool>,
        run: Polled<bool>,
    ) -> (r: MediumPoll)
        ensures
            (*final(self), r) == medium_poll(*old(self), sleep_ready, sigterm_ready, now, lease, run),
    {
        if !self.slept {
            if sleep_ready {
                self.wake();
            } else {
                return MediumPoll::Pending;
            }
        }
        if sigterm_ready {
            return MediumPoll::Finished;
        }
        if self.phase(now) == Phase::Rest {
            self.rest();
            return MediumPoll::Pending;
        }
        if !self.leased {
            match lease {
                Polled::Pending => {
                    return MediumPoll::Pending;
                },
                Polled::Ready(acquired) => {
                    self.lease_result(acquired, now);
                },
            }
        }
        if self.leased {
            match run {
                Polled::Pending => {
                    return MediumPoll::Pending;
                },
                Polled::Ready(false) => {
                    return MediumPoll::Finished;
                },
                Polled::Ready(true) => {
                    self.run_finished(now);
                },
            }
        }
        self.rest();
        MediumPoll::Pending
    }
}

/// The lifecycle ends only on the shutdown signal, or when the lifecycle
/// stream ends while this pod holds the lease; the stream is only read by
/// the pod holding the lease, which it holds either from before or from
/// the lease attempt of this poll.
pub proof fn lemma_medium_stops_only_on_signal_or_end(
    s: MediumState,
    sleep_ready: bool,
    sigterm_ready: bool,
    now: i64,
    lease: Polled<bool>,
    run: Polled<bool>,
)
    ensures
        medium_poll(s, sleep_ready, sigterm_ready, now, lease, run).1 == MediumPoll::Finished
            ==> (s.slept || sleep_ready) && (sigterm_ready || (run == Polled::Ready(false) && now
            >= s.expiration && (s.leased || lease == Polled::Ready(true)))),
        !sigterm_ready && run != Polled::Ready(false) ==> medium_poll(
            s,
            sleep_ready,
            sigterm_ready,
            now,
            lease,
            run,
        ).1 == MediumPoll::Pending,
{
}

/// The stage of the lifecycle stream.
#[derive(Debug, Clone, Copy, PartialEq, Eq, Structural)]
pub enum StreamStage {
    /// A new run is to be started.
    Prep,
    /// A run is under way.
    Go,
}

/// What the lifecycle stream does at a poll.
#[derive(Debug, Clone, Copy, PartialEq, Eq, Structural)]
pub enum StreamStep {
    /// Start a run, wake up again, and wait.
    Start,
    /// Poll the run under way.
    PollRun,
}

impl StreamStage {
    /// What a poll does in this stage, and the stage after it: a prepared
    /// stream starts a run; a running one polls it.
    pub fn step(self) -> (r: (StreamStep, StreamStage))
        ensures
            self == StreamStage::Prep ==> r == (StreamStep::Start, StreamStage::Go),
            self == StreamStage::Go ==> r == (StreamStep::PollRun, StreamStage::Go),
    {
        match self {
            StreamStage::Prep => (StreamStep::Start, StreamStage::Go),
            StreamStage::Go => (StreamStep::PollRun, StreamStage::Go),
        }
    }

    /// The stage after the run under way completed: a new one is prepared.
    pub fn run_completed(self) -> (r: StreamStage)
        ensures
            r == StreamStage::Prep,
    {
        StreamStage::Prep
    }
}

} // verus!
