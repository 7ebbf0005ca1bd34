use audio_thread_priority::budget::{compute_budget_us, RT_PRIO_DEFAULT};
use audio_thread_priority::controller::{
    demote_current_thread_from_real_time_internal, demote_thread_from_real_time_internal,
    demotion_result, promote_current_thread_to_real_time_internal,
    promote_thread_to_real_time_internal, SchedRestore,
};
use audio_thread_priority::error::RtError;
use audio_thread_priority::negotiate::{
    broker_request, Action, BrokerFailure, BrokerProperty, BrokerRequest, Event, Negotiation,
    RLimit,
};
use audio_thread_priority::snapshot::{
    get_current_thread_info_internal, RtPriorityHandleInternal, RtPriorityThreadInfoInternal,
    ThreadQuery, SNAPSHOT_BYTES,
};

fn query(status: i32) -> ThreadQuery {
    ThreadQuery {
        pid: 4242,
        thread_id: 4250,
        pthread_id: 0x7f12_3456_7800,
        status,
        policy: 0,
        sched_priority: 0,
    }
}

fn snapshot() -> RtPriorityThreadInfoInternal {
    get_current_thread_info_internal(query(0)).unwrap()
}

fn limit(soft: u64, hard: u64) -> RLimit {
    RLimit { soft, hard }
}

/// Drives a negotiation to the end, answering every action from the given replies.
fn promoted_handle(info: RtPriorityThreadInfoInternal) -> RtPriorityHandleInternal {
    let (mut n, a) = promote_thread_to_real_time_internal(info, 512, 48_000, info.pid);
    assert_eq!(a, Action::QueryProperty(BrokerProperty::MaxRealtimePriority));
    n.step(Event::Property(Ok(20)));
    n.step(Event::Property(Ok(200_000)));
    n.step(Event::LimitRead(Some(limit(1_000, 2_000))));
    n.step(Event::LimitSet(true));
    assert_eq!(n.step(Event::Promotion(Ok(()))), Action::Finished);
    n.into_handle().unwrap()
}

#[test]
fn budget_from_buffer_frames() {
    assert_eq!(compute_budget_us(512, 48_000), 10_666);
    assert_eq!(compute_budget_us(441, 44_100), 10_000);
    assert_eq!(compute_budget_us(1, 3), 333_333);
}

#[test]
fn budget_without_buffer_frames_is_fifty_ms() {
    assert_eq!(compute_budget_us(0, 48_000), 50_000);
    assert_eq!(compute_budget_us(0, 44_100), 50_000);
    assert_eq!(compute_budget_us(0, 30), 33_333);
    assert_eq!(compute_budget_us(0, 19), 0);
}

#[test]
fn budget_of_largest_buffer_does_not_overflow() {
    assert_eq!(compute_budget_us(u32::MAX, 1), u32::MAX as u64 * 1_000_000);
    assert_eq!(compute_budget_us(u32::MAX, u32::MAX), 1_000_000);
}

#[test]
fn capture_copies_kernel_values() {
    let mut q = query(0);
    q.policy = 2;
    q.sched_priority = 7;
    let s = get_current_thread_info_internal(q).unwrap();
    assert_eq!(s.pid, 4242);
    assert_eq!(s.thread_id, 4250);
    assert_eq!(s.pthread_id, 0x7f12_3456_7800);
    assert_eq!(s.policy, 2);
    assert_eq!(s.sched_priority, 7);
}

#[test]
fn capture_fails_when_query_fails() {
    assert_eq!(get_current_thread_info_internal(query(3)).unwrap_err(), RtError::Query);
}

#[test]
fn serialize_round_trip() {
    let s = RtPriorityThreadInfoInternal {
        pid: -5,
        thread_id: i64::MIN + 3,
        pthread_id: u64::MAX - 1,
        policy: 1,
        sched_priority: -9,
    };
    let bytes = s.serialize();
    assert_eq!(bytes.len(), SNAPSHOT_BYTES);
    let back = RtPriorityThreadInfoInternal::deserialize(bytes);
    assert!(back == s);
    assert_eq!(back.pid, -5);
    assert_eq!(back.thread_id, i64::MIN + 3);
    assert_eq!(back.pthread_id, u64::MAX - 1);
    assert_eq!(back.policy, 1);
    assert_eq!(back.sched_priority, -9);
}

#[test]
fn serialize_layout_is_little_endian() {
    let s = RtPriorityThreadInfoInternal {
        pid: 0x0102_0304,
        thread_id: 0x0506,
        pthread_id: 0x0708,
        policy: 1,
        sched_priority: 0x0a0b,
    };
    let b = s.serialize();
    assert_eq!(&b[0..8], &[4, 3, 2, 1, 0, 0, 0, 0]);
    assert_eq!(&b[8..16], &[6, 5, 0, 0, 0, 0, 0, 0]);
    assert_eq!(&b[16..24], &[8, 7, 0, 0, 0, 0, 0, 0]);
    assert_eq!(&b[24..32], &[1, 0, 0, 0, 0x0b, 0x0a, 0, 0]);
}

#[test]
fn equality_is_by_thread_ids() {
    let a = snapshot();
    let mut b = a;
    b.pid = 1;
    b.policy = 2;
    b.sched_priority = 30;
    assert!(a == b);
    let mut c = a;
    c.thread_id += 1;
    assert!(a != c);
    let mut d = a;
    d.pthread_id += 1;
    assert!(a != d);
}

#[test]
fn promotion_starts_with_budget_and_default_priority() {
    let info = snapshot();
    let (n, a) = promote_thread_to_real_time_internal(info, 0, 48_000, 1);
    assert_eq!(a, Action::QueryProperty(BrokerProperty::MaxRealtimePriority));
    assert_eq!(n.requested_slice_us, 50_000);
    assert_eq!(n.requested_priority, RT_PRIO_DEFAULT);
    assert_eq!(n.own_pid, 1);
    assert!(!n.is_done());
    assert!(n.outcome().is_none());
}

#[test]
fn promote_current_thread_captures_first() {
    let (n, _) = promote_current_thread_to_real_time_internal(query(0), 480, 48_000).unwrap();
    assert_eq!(n.own_pid, 4242);
    assert_eq!(n.requested_slice_us, 10_000);
    assert!(n.thread_info == snapshot());
    assert_eq!(
        promote_current_thread_to_real_time_internal(query(1), 480, 48_000).unwrap_err(),
        RtError::Query
    );
}

#[test]
fn full_negotiation_clamps_and_succeeds() {
    let info = snapshot();
    let (mut n, _) = Negotiation::new(info, info.pid, 30_000, 99);
    assert_eq!(
        n.step(Event::Property(Ok(10))),
        Action::QueryProperty(BrokerProperty::RtTimeUSecMax)
    );
    assert_eq!(n.step(Event::Property(Ok(20_000))), Action::ReadLimit);
    assert_eq!(
        n.step(Event::LimitRead(Some(limit(5, 6)))),
        Action::SetLimit(limit(20_000, 20_000))
    );
    assert_eq!(
        n.step(Event::LimitSet(true)),
        Action::Promote(BrokerRequest::MakeThreadRealtime { thread: 4250, priority: 10 })
    );
    assert_eq!(n.step(Event::Promotion(Ok(()))), Action::Finished);
    assert!(n.is_done());
    assert_eq!(n.outcome(), Some(Ok(10)));
    let h = n.into_handle().unwrap();
    assert!(h.thread_info() == info);
}

#[test]
fn requested_priority_below_max_is_kept() {
    let info = snapshot();
    let (mut n, _) = Negotiation::new(info, 1, 3_000, 5);
    n.step(Event::Property(Ok(i64::MAX)));
    n.step(Event::Property(Ok(10_000)));
    assert_eq!(n.step(Event::LimitRead(Some(limit(0, 0)))), Action::SetLimit(limit(3_000, 10_000)));
    assert_eq!(
        n.step(Event::LimitSet(true)),
        Action::Promote(BrokerRequest::MakeThreadRealtimeWithPid {
            pid: 4242,
            thread: 4250,
            priority: 5
        })
    );
    n.step(Event::Promotion(Ok(())));
    assert_eq!(n.outcome(), Some(Ok(5)));
}

#[test]
fn zero_budget_still_asks_broker() {
    let info = snapshot();
    let (mut n, _) = Negotiation::new(info, info.pid, 3_000, 10);
    n.step(Event::Property(Ok(0)));
    n.step(Event::Property(Ok(0)));
    assert_eq!(n.step(Event::LimitRead(Some(limit(1, 1)))), Action::SetLimit(limit(0, 0)));
    assert_eq!(
        n.step(Event::LimitSet(true)),
        Action::Promote(BrokerRequest::MakeThreadRealtime { thread: 4250, priority: 0 })
    );
}

#[test]
fn negative_max_priority_fails_without_limit() {
    let (mut n, _) = Negotiation::new(snapshot(), 1, 3_000, 10);
    assert_eq!(n.step(Event::Property(Ok(-1))), Action::Finished);
    assert_eq!(n.outcome(), Some(Err(RtError::BrokerQuery)));
    assert_eq!(n.step(Event::LimitSet(true)), Action::Idle);
    assert_eq!(n.into_handle().unwrap_err(), RtError::BrokerQuery);
}

#[test]
fn negative_max_rttime_fails_without_limit() {
    let (mut n, _) = Negotiation::new(snapshot(), 1, 3_000, 10);
    n.step(Event::Property(Ok(10)));
    assert_eq!(n.step(Event::Property(Ok(-7))), Action::Finished);
    assert_eq!(n.outcome(), Some(Err(RtError::BrokerQuery)));
}

#[test]
fn broker_errors_and_timeouts() {
    let (mut n, _) = Negotiation::new(snapshot(), 1, 3_000, 10);
    n.step(Event::Property(Err(BrokerFailure::Error)));
    assert_eq!(n.outcome(), Some(Err(RtError::BrokerQuery)));
    let (mut n, _) = Negotiation::new(snapshot(), 1, 3_000, 10);
    n.step(Event::Property(Ok(10)));
    n.step(Event::Property(Err(BrokerFailure::Timeout)));
    assert_eq!(n.outcome(), Some(Err(RtError::BrokerTimeout)));
}

#[test]
fn limit_errors() {
    let (mut n, _) = Negotiation::new(snapshot(), 1, 3_000, 10);
    n.step(Event::Property(Ok(10)));
    n.step(Event::Property(Ok(10)));
    assert_eq!(n.step(Event::LimitRead(None)), Action::Finished);
    assert_eq!(n.outcome(), Some(Err(RtError::LimitQuery)));

    let (mut n, _) = Negotiation::new(snapshot(), 1, 3_000, 10);
    n.step(Event::Property(Ok(10)));
    n.step(Event::Property(Ok(10)));
    n.step(Event::LimitRead(Some(limit(1, 2))));
    assert_eq!(n.step(Event::LimitSet(false)), Action::Finished);
    assert_eq!(n.outcome(), Some(Err(RtError::LimitSet)));
}

#[test]
fn denied_promotion_restores_old_limit() {
    let (mut n, _) = Negotiation::new(snapshot(), 1, 3_000, 10);
    n.step(Event::Property(Ok(10)));
    n.step(Event::Property(Ok(200_000)));
    n.step(Event::LimitRead(Some(limit(7, 9))));
    n.step(Event::LimitSet(true));
    assert_eq!(
        n.step(Event::Promotion(Err(BrokerFailure::Error))),
        Action::RestoreLimit(limit(7, 9))
    );
    assert_eq!(n.outcome(), Some(Err(RtError::PromotionDenied)));
}

#[test]
fn timed_out_promotion_restores_old_limit() {
    let (mut n, _) = Negotiation::new(snapshot(), 1, 3_000, 10);
    n.step(Event::Property(Ok(10)));
    n.step(Event::Property(Ok(200_000)));
    n.step(Event::LimitRead(Some(limit(7, 9))));
    n.step(Event::LimitSet(true));
    assert_eq!(
        n.step(Event::Promotion(Err(BrokerFailure::Timeout))),
        Action::RestoreLimit(limit(7, 9))
    );
    assert_eq!(n.outcome(), Some(Err(RtError::BrokerTimeout)));
}

#[test]
fn unexpected_event_is_ignored() {
    let (mut n, _) = Negotiation::new(snapshot(), 1, 3_000, 10);
    assert_eq!(n.step(Event::LimitSet(true)), Action::Idle);
    assert_eq!(
        n.step(Event::Property(Ok(3))),
        Action::QueryProperty(BrokerProperty::RtTimeUSecMax)
    );
}

#[test]
fn request_shape_depends_on_process() {
    let info = snapshot();
    assert_eq!(
        broker_request(&info, 4242, 3),
        BrokerRequest::MakeThreadRealtime { thread: 4250, priority: 3 }
    );
    assert_eq!(
        broker_request(&info, 17, 3),
        BrokerRequest::MakeThreadRealtimeWithPid { pid: 4242, thread: 4250, priority: 3 }
    );
}

#[test]
fn demote_restores_captured_state() {
    let mut q = query(0);
    q.policy = 0;
    q.sched_priority = 0;
    let info = get_current_thread_info_internal(q).unwrap();
    let h = promoted_handle(info);
    let r = demote_current_thread_from_real_time_internal(h, q.pid, q.pthread_id).unwrap();
    assert_eq!(r, SchedRestore { pthread_id: q.pthread_id, policy: 0, sched_priority: 0 });
}

#[test]
fn demote_after_serialize_round_trip() {
    let mut q = query(0);
    q.policy = 3;
    q.sched_priority = 4;
    let info = get_current_thread_info_internal(q).unwrap();
    let received = RtPriorityThreadInfoInternal::deserialize(info.serialize());
    let h = promoted_handle(received);
    let r = demote_thread_from_real_time_internal(h, q.pid).unwrap();
    assert_eq!(r, SchedRestore { pthread_id: q.pthread_id, policy: 3, sched_priority: 4 });
}

#[test]
fn demote_from_other_thread_is_refused() {
    let info = snapshot();
    let h = promoted_handle(info);
    let r = demote_current_thread_from_real_time_internal(h, info.pid, info.pthread_id + 1);
    assert_eq!(r.unwrap_err(), RtError::IdentityMismatch);
}

#[test]
fn demote_of_foreign_handle_is_refused() {
    let info = snapshot();
    let h = promoted_handle(info);
    let r = demote_thread_from_real_time_internal(h, info.pid + 1);
    assert_eq!(r.unwrap_err(), RtError::ForeignProcess);
}

#[test]
fn demote_current_of_foreign_handle_is_refused() {
    let info = snapshot();
    let h = promoted_handle(info);
    let r = demote_current_thread_from_real_time_internal(h, info.pid + 1, info.pthread_id);
    assert_eq!(r.unwrap_err(), RtError::ForeignProcess);
}

fn promote_with_max_priority(max: i64) -> (Action, Option<Result<u32, RtError>>) {
    let info = snapshot();
    let (mut n, _) = promote_thread_to_real_time_internal(info, 256, 48_000, 1);
    n.step(Event::Property(Ok(max)));
    n.step(Event::Property(Ok(100_000)));
    n.step(Event::LimitRead(Some(limit(3, 4))));
    let a = n.step(Event::LimitSet(true));
    n.step(Event::Promotion(Ok(())));
    (a, n.outcome())
}

#[test]
fn default_priority_lowered_to_broker_max() {
    let (a, o) = promote_with_max_priority(5);
    assert_eq!(
        a,
        Action::Promote(BrokerRequest::MakeThreadRealtimeWithPid {
            pid: 4242,
            thread: 4250,
            priority: 5
        })
    );
    assert_eq!(o, Some(Ok(5)));
}

#[test]
fn default_priority_kept_under_high_broker_max() {
    let (a, o) = promote_with_max_priority(99);
    assert_eq!(
        a,
        Action::Promote(BrokerRequest::MakeThreadRealtimeWithPid {
            pid: 4242,
            thread: 4250,
            priority: 10
        })
    );
    assert_eq!(o, Some(Ok(10)));
}

#[test]
fn demotion_status() {
    assert_eq!(demotion_result(0), Ok(()));
    assert_eq!(demotion_result(1), Err(RtError::Demotion));
    assert_eq!(demotion_result(-1), Err(RtError::Demotion));
}
