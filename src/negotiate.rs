use vstd::prelude::*;

use crate::error::RtError;
use crate::snapshot::{RtPriorityHandleInternal, RtPriorityThreadInfoInternal};

verus! {

/// A real-time CPU-time resource limit of the process, in microseconds.
#[derive(Clone, Copy, Debug, PartialEq, Eq, Structural)]
pub struct RLimit {
    /// The soft limit: past it the process is signalled.
    pub soft: u64,
    /// The hard limit: past it the process is killed.
    pub hard: u64,
}

/// A property that the broker advertises.
#[derive(Clone, Copy, Debug, PartialEq, Eq, Structural)]
pub enum BrokerProperty {
    /// The highest real-time priority that the broker grants.
    MaxRealtimePriority,
    /// The largest real-time CPU-time budget, in microseconds, that the broker allows.
    RtTimeUSecMax,
}

/// How a round trip to the broker failed.
#[derive(Clone, Copy, Debug, PartialEq, Eq, Structural)]
pub enum BrokerFailure {
    /// The broker answered with an error, or with something that is not an integer.
    Error,
    /// The broker did not answer within the timeout.
    Timeout,
}

/// The promotion call sent to the broker.
#[derive(Clone, Copy, Debug, PartialEq, Eq, Structural)]
pub enum BrokerRequest {
    /// Promote a thread of the calling process.
    MakeThreadRealtime { thread: u64, priority: u32 },
    /// Promote a thread of another process.
    MakeThreadRealtimeWithPid { pid: u64, thread: u64, priority: u32 },
}

/// What the caller reports back after carrying out an action.
#[derive(Clone, Copy, Debug)]
pub enum Event {
    /// The value of the property that was asked for.
    Property(Result<i64, BrokerFailure>),
    /// The current limit, or `None` when it could not be read.
    LimitRead(Option<RLimit>),
    /// Whether the new limit was set.
    LimitSet(bool),
    /// The broker's answer to the promotion call.
    Promotion(Result<(), BrokerFailure>),
}

/// What the caller is to do next.
#[derive(Clone, Copy, Debug, PartialEq, Eq, Structural)]
pub enum Action {
    /// Read a property of the broker and report it with `Event::Property`.
    QueryProperty(BrokerProperty),
    /// Read the process's real-time CPU-time limit and report it with `Event::LimitRead`.
    ReadLimit,
    /// Set the process's real-time CPU-time limit and report with `Event::LimitSet`.
    SetLimit(RLimit),
    /// Send the promotion call and report the answer with `Event::Promotion`.
    Promote(BrokerRequest),
    /// Put the limit back as it was; the negotiation is over and has failed.
    RestoreLimit(RLimit),
    /// The negotiation is over: its outcome is in the state.
    Finished,
    /// Nothing to do: the event did not answer the last action.
    Idle,
}

/// Where a negotiation stands.
#[derive(Clone, Copy, Debug)]
pub enum Phase {
    AwaitMaxPriority,
    AwaitMaxRtTime { priority: u32 },
    AwaitOldLimit { priority: u32, new_limit: RLimit },
    AwaitLimitSet { priority: u32, new_limit: RLimit, old_limit: RLimit },
    AwaitPromotion { priority: u32, old_limit: RLimit },
    Done { outcome: Result<u32, RtError> },
}

/// A request for real-time promotion of one thread, negotiated with the
/// broker and with the process's real-time CPU-time limit.
#[derive(Clone, Copy, Debug)]
pub struct Negotiation {
    /// The thread to promote.
    pub thread_info: RtPriorityThreadInfoInternal,
    /// The id of the process that runs the negotiation.
    pub own_pid: i32,
    /// The CPU-time budget asked for, in microseconds.
    pub requested_slice_us: u64,
    /// The priority asked for.
    pub requested_priority: u32,
    pub phase: Phase,
}

/// The requested priority, lowered to the broker's maximum.
pub open spec fn clamp_priority(requested: u32, max: i64) -> u32 {
    if requested as int <= max {
        requested
    } else {
        max as u32
    }
}

/// The requested budget, lowered to the broker's maximum.
pub open spec fn clamp_slice(requested: u64, max: i64) -> u64 {
    if requested as int <= max {
        requested
    } else {
        max as u64
    }
}

/// The error for a failed round trip to the broker when reading a property.
pub open spec fn property_error(f: BrokerFailure) -> RtError {
    match f {
        BrokerFailure::Error => RtError::BrokerQuery,
        BrokerFailure::Timeout => RtError::BrokerTimeout,
    }
}

/// The error for a failed promotion call.
pub open spec fn promotion_error(f: BrokerFailure) -> RtError {
    match f {
        BrokerFailure::Error => RtError::PromotionDenied,
        BrokerFailure::Timeout => RtError::BrokerTimeout,
    }
}

/// The call to send: the short form when the thread belongs to the calling process.
pub open spec fn request_for(
    info: RtPriorityThreadInfoInternal,
    own_pid: i32,
    priority: u32,
) -> BrokerRequest {
    if info.pid == own_pid {
        BrokerRequest::MakeThreadRealtime { thread: info.thread_id as u64, priority }
    } else {
        BrokerRequest::MakeThreadRealtimeWithPid {
            pid: info.pid as u64,
            thread: info.thread_id as u64,
            priority,
        }
    }
}

impl BrokerRequest {
    pub open spec fn priority_spec(&self) -> u32 {
        match *self {
            BrokerRequest::MakeThreadRealtime { priority, .. } => priority,
            BrokerRequest::MakeThreadRealtimeWithPid { priority, .. } => priority,
        }
    }
}

impl Negotiation {
    pub open spec fn start_spec(
        thread_info: RtPriorityThreadInfoInternal,
        own_pid: i32,
        requested_slice_us: u64,
        requested_priority: u32,
    ) -> Negotiation {
        Negotiation {
            thread_info,
            own_pid,
            requested_slice_us,
            requested_priority,
            phase: Phase::AwaitMaxPriority,
        }
    }

    pub open spec fn with_phase(self, phase: Phase) -> Negotiation {
        Negotiation { phase, ..self }
    }

    pub open spec fn fail(self, e: RtError) -> (Negotiation, Action) {
        (self.with_phase(Phase::Done { outcome: Err(e) }), Action::Finished)
    }

    /// The next state and action after `e`.
    pub open spec fn step_spec(self, e: Event) -> (Negotiation, Action) {
        match (self.phase, e) {
            (Phase::AwaitMaxPriority, Event::Property(Ok(max))) => if max < 0 {
                self.fail(RtError::BrokerQuery)
            } else {
                (
                    self.with_phase(
                        Phase::AwaitMaxRtTime {
                            priority: clamp_priority(self.requested_priority, max),
                        },
                    ),
                    Action::QueryProperty(BrokerProperty::RtTimeUSecMax),
                )
            },
            (Phase::AwaitMaxRtTime { priority }, Event::Property(Ok(max))) => if max < 0 {
                self.fail(RtError::BrokerQuery)
            } else {
                (
                    self.with_phase(
                        Phase::AwaitOldLimit {
                            priority,
                            new_limit: RLimit {
                                soft: clamp_slice(self.requested_slice_us, max),
                                hard: max as u64,
                            },
                        },
                    ),
                    Action::ReadLimit,
                )
            },
            (Phase::AwaitMaxPriority, Event::Property(Err(f))) => self.fail(property_error(f)),
            (Phase::AwaitMaxRtTime { .. }, Event::Property(Err(f))) => self.fail(
                property_error(f),
            ),
            (Phase::AwaitOldLimit { priority, new_limit }, Event::LimitRead(read)) => match read {
                Some(old_limit) => (
                    self.with_phase(Phase::AwaitLimitSet { priority, new_limit, old_limit }),
                    Action::SetLimit(new_limit),
                ),
                None => self.fail(RtError::LimitQuery),
            },
            (Phase::AwaitLimitSet { priority, old_limit, .. }, Event::LimitSet(set)) => if set {
                (
                    self.with_phase(Phase::AwaitPromotion { priority, old_limit }),
                    Action::Promote(request_for(self.thread_info, self.own_pid, priority)),
                )
            } else {
                self.fail(RtError::LimitSet)
            },
            (
                Phase::AwaitPromotion { priority, old_limit },
                Event::Promotion(reply),
            ) => match reply {
                Ok(()) => (
                    self.with_phase(Phase::Done { outcome: Ok(priority) }),
                    Action::Finished,
                ),
                Err(f) => (
                    self.with_phase(Phase::Done { outcome: Err(promotion_error(f)) }),
                    Action::RestoreLimit(old_limit),
                ),
            },
            _ => (self, Action::Idle),
        }
    }

    /// Starts negotiating: the first thing to learn is the broker's maximum priority.
    pub fn new(
        thread_info: RtPriorityThreadInfoInternal,
        own_pid: i32,
        requested_slice_us: u64,
        requested_priority: u32,
    ) -> (r: (Negotiation, Action))
        ensures
            r.0 == Self::start_spec(thread_info, own_pid, requested_slice_us, requested_priority),
            r.1 == Action::QueryProperty(BrokerProperty::MaxRealtimePriority),
    {
        (
            Negotiation {
                thread_info,
                own_pid,
                requested_slice_us,
                requested_priority,
                phase: Phase::AwaitMaxPriority,
            },
            Action::QueryProperty(BrokerProperty::MaxRealtimePriority),
        )
    }
    fn finish(&mut self, outcome: Result<u32, RtError>)
        ensures
            *final(self) == old(self).with_phase(Phase::Done { outcome }),
    {
        self.phase = Phase::Done { outcome };
    }

    /// Takes in what came of the last action and says what to do next.
    pub fn step(&mut self, e: Event) -> (a: Action)
        ensures
            (*final(self), a) == old(self).step_spec(e),
    {
        match (self.phase, e) {
            (Phase::AwaitMaxPriority, Event::Property(Ok(max))) => {
                if max < 0 {
                    self.finish(Err(RtError::BrokerQuery));
                    return Action::Finished;
                }
                let priority = if (self.requested_priority as i64) <= max {
                    self.requested_priority
                } else {
                    max as u32
                };
                self.phase = Phase::AwaitMaxRtTime { priority };
                Action::QueryProperty(BrokerProperty::RtTimeUSecMax)
            },
            (Phase::AwaitMaxRtTime { priority }, Event::Property(Ok(max))) => {
                if max < 0 {
                    self.finish(Err(RtError::BrokerQuery));
                    return Action::Finished;
                }
                let soft = if self.requested_slice_us <= max as u64 {
                    self.requested_slice_us
                } else {
                    max as u64
                };
                self.phase = Phase::AwaitOldLimit {
                    priority,
                    new_limit: RLimit { soft, hard: max as u64 },
                };
                Action::ReadLimit
            },
            (Phase::AwaitMaxPriority, Event::Property(Err(f)))
            | (Phase::AwaitMaxRtTime { .. }, Event::Property(Err(f))) => {
                let err = match f {
                    BrokerFailure::Error => RtError::BrokerQuery,
                    BrokerFailure::Timeout => RtError::BrokerTimeout,
                };
                self.finish(Err(err));
                Action::Finished
            },
            (Phase::AwaitOldLimit { priority, new_limit }, Event::LimitRead(read)) => match read {
                Some(old_limit) => {
                    self.phase = Phase::AwaitLimitSet { priority, new_limit, old_limit };
                    Action::SetLimit(new_limit)
                },
                None => {
                    self.finish(Err(RtError::LimitQuery));
                    Action::Finished
                },
            },
            (Phase::AwaitLimitSet { priority, old_limit, .. }, Event::LimitSet(set)) => {
                if !set {
                    self.finish(Err(RtError::LimitSet));
                    return Action::Finished;
                }
                self.phase = Phase::AwaitPromotion { priority, old_limit };
                Action::Promote(broker_request(&self.thread_info, self.own_pid, priority))
            },
            (
                Phase::AwaitPromotion { priority, old_limit },
                Event::Promotion(reply),
            ) => match reply {
                Ok(()) => {
                    self.finish(Ok(priority));
                    Action::Finished
                },
                Err(f) => {
                    let err = match f {
                        BrokerFailure::Error => RtError::PromotionDenied,
                        BrokerFailure::Timeout => RtError::BrokerTimeout,
                    };
                    self.finish(Err(err));
                    Action::RestoreLimit(old_limit)
                },
            },
            _ => Action::Idle,
        }
    }

    /// Whether the negotiation is over.
    pub fn is_done(&self) -> (r: bool)
        ensures
            r == self.phase is Done,
    {
        match self.phase {
            Phase::Done { .. } => true,
            _ => false,
        }
    }

    /// The priority granted, or why none was, once the negotiation is over.
    pub fn outcome(&self) -> (r: Option<Result<u32, RtError>>)
        ensures
            match self.phase {
                Phase::Done { outcome } => r == Some(outcome),
                _ => r is None,
            },
    {
        match self.phase {
            Phase::Done { outcome } => Some(outcome),
            _ => None,
        }
    }

    /// The handle on the promoted thread, once the negotiation is over; the
    /// handle holds the snapshot that the negotiation started from.
    pub fn into_handle(self) -> (r: Result<RtPriorityHandleInternal, RtError>)
        requires
            self.phase is Done,
        ensures
            match self.phase {
                Phase::Done { outcome: Ok(_) } => r is Ok && r->Ok_0@ == self.thread_info,
                Phase::Done { outcome: Err(e) } => r == Err::<RtPriorityHandleInternal, RtError>(e),
                _ => false,
            },
    {
        match self.phase {
            Phase::Done { outcome: Ok(_) } => Ok(RtPriorityHandleInternal::new(self.thread_info)),
            Phase::Done { outcome: Err(e) } => Err(e),
            _ => Err(RtError::Query),
        }
    }
}

/// The promotion call for `info` at `priority`, sent from the process `own_pid`.
pub fn broker_request(info: &RtPriorityThreadInfoInternal, own_pid: i32, priority: u32) -> (r:
    BrokerRequest)
    ensures
        r == request_for(*info, own_pid, priority),
{
    if info.pid == own_pid {
        BrokerRequest::MakeThreadRealtime { thread: info.thread_id as u64, priority }
    } else {
        BrokerRequest::MakeThreadRealtimeWithPid {
            pid: info.pid as u64,
            thread: info.thread_id as u64,
            priority,
        }
    }
}

/// The state reached and the actions asked for when the events come in turn.
pub open spec fn run(n: Negotiation, events: Seq<Event>) -> (Negotiation, Seq<Action>)
    decreases events.len(),
{
    if events.len() == 0 {
        (n, Seq::empty())
    } else {
        let first = n.step_spec(events[0]);
        let rest = run(first.0, events.subrange(1, events.len() as int));
        (rest.0, seq![first.1] + rest.1)
    }
}

proof fn lemma_run_cons(n: Negotiation, e: Event, rest: Seq<Event>)
    ensures
        run(n, seq![e] + rest) == (
            run(n.step_spec(e).0, rest).0,
            seq![n.step_spec(e).1] + run(n.step_spec(e).0, rest).1,
        ),
{
    let events = seq![e] + rest;
    assert(events[0] == e);
    assert(events.subrange(1, events.len() as int) =~= rest);
}

/// Once a negotiation is over, no event changes it and nothing more is asked.
pub proof fn lemma_done_stays_done(n: Negotiation, events: Seq<Event>)
    requires
        n.phase is Done,
    ensures
        run(n, events).0 == n,
        run(n, events).1.len() == events.len(),
        forall|i: int| 0 <= i < run(n, events).1.len() ==> run(n, events).1[i] == Action::Idle,
    decreases events.len(),
{
    if events.len() > 0 {
        let rest = events.subrange(1, events.len() as int);
        assert(events =~= seq![events[0]] + rest);
        lemma_run_cons(n, events[0], rest);
        lemma_done_stays_done(n, rest);
    }
}

/// Every priority that `n` holds is at most `max`, and `n` no longer waits
/// for the broker's maximum priority.
pub open spec fn priority_bounded(n: Negotiation, max: i64) -> bool {
    match n.phase {
        Phase::AwaitMaxPriority => false,
        Phase::AwaitMaxRtTime { priority } => priority <= max,
        Phase::AwaitOldLimit { priority, .. } => priority <= max,
        Phase::AwaitLimitSet { priority, .. } => priority <= max,
        Phase::AwaitPromotion { priority, .. } => priority <= max,
        Phase::Done { outcome } => outcome is Ok ==> outcome->Ok_0 <= max,
    }
}

proof fn lemma_run_bounded(n: Negotiation, max: i64, events: Seq<Event>)
    requires
        priority_bounded(n, max),
    ensures
        priority_bounded(run(n, events).0, max),
        forall|i: int|
            0 <= i < run(n, events).1.len() && (#[trigger] run(n, events).1[i]) is Promote
                ==> run(n, events).1[i]->Promote_0.priority_spec() <= max,
    decreases events.len(),
{
    if events.len() > 0 {
        let rest = events.subrange(1, events.len() as int);
        assert(events =~= seq![events[0]] + rest);
        lemma_run_cons(n, events[0], rest);
        let next = n.step_spec(events[0]).0;
        lemma_run_bounded(next, max, rest);
        let acts = run(n, events).1;
        assert forall|i: int| 0 <= i < acts.len() && (#[trigger] acts[i]) is Promote implies acts[
            i]->Promote_0.priority_spec() <= max by {
            if i > 0 {
                assert(acts[i] == run(next, rest).1[i - 1]);
            }
        }
    }
}

/// Once the broker reports `max` as its highest priority, no promotion call
/// asks for more than `max` and no granted priority exceeds it, whatever the
/// priority asked for and whatever comes next.
pub proof fn lemma_priority_never_exceeds_max(n: Negotiation, max: i64, rest: Seq<Event>)
    requires
        n.phase is AwaitMaxPriority,
        max >= 0,
    ensures
        ({
            let r = run(n, seq![Event::Property(Ok(max))] + rest);
            &&& forall|i: int|
                0 <= i < r.1.len() && (#[trigger] r.1[i]) is Promote
                    ==> r.1[i]->Promote_0.priority_spec() <= max
            &&& (r.0.phase matches Phase::Done { outcome: Ok(p) } ==> p <= max)
        }),
{
    let e = Event::Property(Ok(max));
    lemma_run_cons(n, e, rest);
    let next = n.step_spec(e).0;
    lemma_run_bounded(next, max, rest);
    let r = run(n, seq![e] + rest);
    assert forall|i: int| 0 <= i < r.1.len() && (#[trigger] r.1[i]) is Promote implies r.1[
        i]->Promote_0.priority_spec() <= max by {
        if i > 0 {
            assert(r.1[i] == run(next, rest).1[i - 1]);
        }
    }
}

/// When the broker reports a negative maximum priority, or a negative maximum
/// budget, the negotiation fails with `RtError::BrokerQuery` and never asks
/// for the resource limit to be read or changed.
pub proof fn lemma_negative_max_touches_no_limit(
    n: Negotiation,
    max_priority: i64,
    max_rttime: i64,
    rest: Seq<Event>,
)
    requires
        n.phase is AwaitMaxPriority,
        max_priority < 0 || max_rttime < 0,
    ensures
        ({
            let r = run(
                n,
                seq![Event::Property(Ok(max_priority)), Event::Property(Ok(max_rttime))] + rest,
            );
            &&& r.0.phase == (Phase::Done { outcome: Err(RtError::BrokerQuery) })
            &&& forall|i: int|
                0 <= i < r.1.len() ==> !(#[trigger] r.1[i] is SetLimit) && !(r.1[i] is RestoreLimit)
                    && !(r.1[i] is ReadLimit) && !(r.1[i] is Promote)
        }),
{
    let e1 = Event::Property(Ok(max_priority));
    let e2 = Event::Property(Ok(max_rttime));
    let events = seq![e1, e2] + rest;
    assert(events =~= seq![e1] + (seq![e2] + rest));
    lemma_run_cons(n, e1, seq![e2] + rest);
    let n1 = n.step_spec(e1).0;
    lemma_run_cons(n1, e2, rest);
    let n2 = n1.step_spec(e2).0;
    lemma_done_stays_done(n2, rest);
    let r = run(n, events);
    assert forall|i: int| 0 <= i < r.1.len() implies !(#[trigger] r.1[i] is SetLimit) && !(
    r.1[i] is RestoreLimit) && !(r.1[i] is ReadLimit) && !(r.1[i] is Promote) by {
        if i > 1 {
            assert(r.1[i] == run(n2, rest).1[i - 2]);
        }
    }
}

/// When the new limit has been set and the promotion call then fails, the
/// last limit asked for is the one read before the attempt, and nothing
/// follows it.
pub proof fn lemma_failed_promotion_restores_limit(
    n: Negotiation,
    max_priority: i64,
    max_rttime: i64,
    old_limit: RLimit,
    failure: BrokerFailure,
    rest: Seq<Event>,
)
    requires
        n.phase is AwaitMaxPriority,
        max_priority >= 0,
        max_rttime >= 0,
    ensures
        ({
            let r = run(
                n,
                seq![
                    Event::Property(Ok(max_priority)),
                    Event::Property(Ok(max_rttime)),
                    Event::LimitRead(Some(old_limit)),
                    Event::LimitSet(true),
                    Event::Promotion(Err(failure)),
                ] + rest,
            );
            &&& r.1[2] == Action::SetLimit(
                RLimit {
                    soft: clamp_slice(n.requested_slice_us, max_rttime),
                    hard: max_rttime as u64,
                },
            )
            &&& r.1[3] is Promote
            &&& r.1[4] == Action::RestoreLimit(old_limit)
            &&& forall|i: int| 5 <= i < r.1.len() ==> #[trigger] r.1[i] == Action::Idle
            &&& r.0.phase == (Phase::Done { outcome: Err(promotion_error(failure)) })
        }),
{
    let e1 = Event::Property(Ok(max_priority));
    let e2 = Event::Property(Ok(max_rttime));
    let e3 = Event::LimitRead(Some(old_limit));
    let e4 = Event::LimitSet(true);
    let e5 = Event::Promotion(Err(failure));
    let events = seq![e1, e2, e3, e4, e5] + rest;
    assert(events =~= seq![e1] + (seq![e2] + (seq![e3] + (seq![e4] + (seq![e5] + rest)))));
    lemma_run_cons(n, e1, seq![e2] + (seq![e3] + (seq![e4] + (seq![e5] + rest))));
    let n1 = n.step_spec(e1).0;
    lemma_run_cons(n1, e2, seq![e3] + (seq![e4] + (seq![e5] + rest)));
    let n2 = n1.step_spec(e2).0;
    lemma_run_cons(n2, e3, seq![e4] + (seq![e5] + rest));
    let n3 = n2.step_spec(e3).0;
    lemma_run_cons(n3, e4, seq![e5] + rest);
    let n4 = n3.step_spec(e4).0;
    lemma_run_cons(n4, e5, rest);
    let n5 = n4.step_spec(e5).0;
    lemma_done_stays_done(n5, rest);
    let r = run(n, events);
    assert forall|i: int| 5 <= i < r.1.len() implies #[trigger] r.1[i] == Action::Idle by {
        assert(r.1[i] == run(n5, rest).1[i - 5]);
    }
}

/// Once the broker reports its maxima and the new limit is in place, the
/// promotion call asks for the requested priority lowered to the broker's
/// maximum, and a successful promotion grants exactly that priority.
pub proof fn lemma_promotion_asks_clamped_priority(
    n: Negotiation,
    max_priority: i64,
    max_rttime: i64,
    old_limit: RLimit,
    rest: Seq<Event>,
)
    requires
        n.phase is AwaitMaxPriority,
        max_priority >= 0,
        max_rttime >= 0,
    ensures
        ({
            let p = clamp_priority(n.requested_priority, max_priority);
            let r = run(
                n,
                seq![
                    Event::Property(Ok(max_priority)),
                    Event::Property(Ok(max_rttime)),
                    Event::LimitRead(Some(old_limit)),
                    Event::LimitSet(true),
                    Event::Promotion(Ok(())),
                ] + rest,
            );
            &&& p <= max_priority
            &&& n.requested_priority <= max_priority ==> p == n.requested_priority
            &&& n.requested_priority > max_priority ==> p == max_priority
            &&& r.1[3] == Action::Promote(request_for(n.thread_info, n.own_pid, p))
            &&& r.1[3]->Promote_0.priority_spec() == p
            &&& r.1[4] == Action::Finished
            &&& r.0.phase == (Phase::Done { outcome: Ok::<u32, RtError>(p) })
        }),
{
    let e1 = Event::Property(Ok(max_priority));
    let e2 = Event::Property(Ok(max_rttime));
    let e3 = Event::LimitRead(Some(old_limit));
    let e4 = Event::LimitSet(true);
    let e5 = Event::Promotion(Ok(()));
    let events = seq![e1, e2, e3, e4, e5] + rest;
    assert(events =~= seq![e1] + (seq![e2] + (seq![e3] + (seq![e4] + (seq![e5] + rest)))));
    lemma_run_cons(n, e1, seq![e2] + (seq![e3] + (seq![e4] + (seq![e5] + rest))));
    let n1 = n.step_spec(e1).0;
    lemma_run_cons(n1, e2, seq![e3] + (seq![e4] + (seq![e5] + rest)));
    let n2 = n1.step_spec(e2).0;
    lemma_run_cons(n2, e3, seq![e4] + (seq![e5] + rest));
    let n3 = n2.step_spec(e3).0;
    lemma_run_cons(n3, e4, seq![e5] + rest);
    let n4 = n3.step_spec(e4).0;
    lemma_run_cons(n4, e5, rest);
    let n5 = n4.step_spec(e5).0;
    lemma_done_stays_done(n5, rest);
}

/// A negotiation keeps the snapshot of the thread that it started from.
pub proof fn lemma_run_keeps_thread(n: Negotiation, events: Seq<Event>)
    ensures
        run(n, events).0.thread_info == n.thread_info,
    decreases events.len(),
{
    if events.len() > 0 {
        lemma_run_keeps_thread(n.step_spec(events[0]).0, events.subrange(1, events.len() as int));
    }
}

} // verus!
