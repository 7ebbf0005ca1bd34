use vstd::prelude::*;

use crate::budget::{budget_spec, compute_budget_us, RT_PRIO_DEFAULT};
use crate::error::RtError;
use crate::negotiate::{
    lemma_promotion_asks_clamped_priority, lemma_run_keeps_thread, request_for, run, Action,
    BrokerProperty, Event, Negotiation, Phase, RLimit,
};
use crate::snapshot::{
    captured, get_current_thread_info_internal, RtPriorityHandleInternal,
    RtPriorityThreadInfoInternal, ThreadQuery,
};

verus! {

/// The scheduling policy and parameters to put back on a thread, addressed
/// by its process-local handle.
#[derive(Clone, Copy, Debug, PartialEq, Eq, Structural)]
pub struct SchedRestore {
    pub pthread_id: u64,
    pub policy: i32,
    pub sched_priority: i32,
}

/// The scheduling state that a snapshot recorded.
pub open spec fn restore_of(info: RtPriorityThreadInfoInternal) -> SchedRestore {
    SchedRestore {
        pthread_id: info.pthread_id,
        policy: info.policy,
        sched_priority: info.sched_priority,
    }
}

/// The negotiation that promotes the thread `thread_info`, possibly of
/// another process, from the process `own_pid`: it asks for the default
/// priority and for the budget of one audio buffer.
pub fn promote_thread_to_real_time_internal(
    thread_info: RtPriorityThreadInfoInternal,
    audio_buffer_frames: u32,
    audio_samplerate_hz: u32,
    own_pid: i32,
) -> (r: (Negotiation, Action))
    requires
        audio_samplerate_hz > 0,
    ensures
        r.0 == Negotiation::start_spec(
            thread_info,
            own_pid,
            budget_spec(audio_buffer_frames, audio_samplerate_hz) as u64,
            RT_PRIO_DEFAULT,
        ),
        r.1 == Action::QueryProperty(BrokerProperty::MaxRealtimePriority),
{
    let budget_us = compute_budget_us(audio_buffer_frames, audio_samplerate_hz);
    Negotiation::new(thread_info, own_pid, budget_us, RT_PRIO_DEFAULT)
}

/// Captures the calling thread from what the kernel reported of it, then
/// starts the negotiation that promotes it.
pub fn promote_current_thread_to_real_time_internal(
    query: ThreadQuery,
    audio_buffer_frames: u32,
    audio_samplerate_hz: u32,
) -> (r: Result<(Negotiation, Action), RtError>)
    requires
        audio_samplerate_hz > 0,
    ensures
        query.status != 0 ==> r == Err::<(Negotiation, Action), RtError>(RtError::Query),
        query.status == 0 ==> r == Ok::<(Negotiation, Action), RtError>(
            (
                Negotiation::start_spec(
                    captured(query),
                    query.pid,
                    budget_spec(audio_buffer_frames, audio_samplerate_hz) as u64,
                    RT_PRIO_DEFAULT,
                ),
                Action::QueryProperty(BrokerProperty::MaxRealtimePriority),
            ),
        ),
{
    let thread_info = match get_current_thread_info_internal(query) {
        Ok(info) => info,
        Err(e) => return Err(e),
    };
    Ok(
        promote_thread_to_real_time_internal(
            thread_info,
            audio_buffer_frames,
            audio_samplerate_hz,
            query.pid,
        ),
    )
}

/// What demotion from the process `own_pid` gives for a handle holding
/// `info`: the state to restore, unless the snapshot was taken in another
/// process, where its thread handle means nothing.
pub open spec fn demote_spec(info: RtPriorityThreadInfoInternal, own_pid: i32) -> Result<
    SchedRestore,
    RtError,
> {
    if info.pid != own_pid {
        Err(RtError::ForeignProcess)
    } else {
        Ok(restore_of(info))
    }
}

/// What demotion of the calling thread, whose process-local handle is
/// `current_pthread`, gives for a handle holding `info`: as `demote_spec`,
/// and moreover the calling thread must be the one that the handle describes.
pub open spec fn demote_current_spec(
    info: RtPriorityThreadInfoInternal,
    own_pid: i32,
    current_pthread: u64,
) -> Result<SchedRestore, RtError> {
    if info.pid != own_pid {
        Err(RtError::ForeignProcess)
    } else if info.pthread_id != current_pthread {
        Err(RtError::IdentityMismatch)
    } else {
        Ok(restore_of(info))
    }
}

/// Consumes the handle and gives the scheduling state to restore, provided
/// the handle was made in the calling process `own_pid` and the calling
/// thread, whose process-local handle is `current_pthread`, is the thread
/// that the handle describes.
pub fn demote_current_thread_from_real_time_internal(
    rt_priority_handle: RtPriorityHandleInternal,
    own_pid: i32,
    current_pthread: u64,
) -> (r: Result<SchedRestore, RtError>)
    ensures
        r == demote_current_spec(rt_priority_handle@, own_pid, current_pthread),
        rt_priority_handle@.pid != own_pid ==> r == Err::<SchedRestore, RtError>(
            RtError::ForeignProcess,
        ),
        rt_priority_handle@.pid == own_pid && current_pthread != rt_priority_handle@.pthread_id
            ==> r == Err::<SchedRestore, RtError>(RtError::IdentityMismatch),
        rt_priority_handle@.pid == own_pid && current_pthread == rt_priority_handle@.pthread_id
            ==> r == Ok::<SchedRestore, RtError>(restore_of(rt_priority_handle@)),
{
    let info = rt_priority_handle.thread_info();
    if info.pid != own_pid {
        return Err(RtError::ForeignProcess);
    }
    if info.pthread_id != current_pthread {
        return Err(RtError::IdentityMismatch);
    }
    Ok(
        SchedRestore {
            pthread_id: info.pthread_id,
            policy: info.policy,
            sched_priority: info.sched_priority,
        },
    )
}

/// Consumes the handle and gives the scheduling state to restore, without
/// checking which thread of the calling process `own_pid` calls; a handle
/// made in another process is refused.
pub fn demote_thread_from_real_time_internal(
    rt_priority_handle: RtPriorityHandleInternal,
    own_pid: i32,
) -> (r: Result<SchedRestore, RtError>)
    ensures
        r == demote_spec(rt_priority_handle@, own_pid),
        rt_priority_handle@.pid != own_pid ==> r == Err::<SchedRestore, RtError>(
            RtError::ForeignProcess,
        ),
        rt_priority_handle@.pid == own_pid ==> r == Ok::<SchedRestore, RtError>(
            restore_of(rt_priority_handle@),
        ),
{
    let info = rt_priority_handle.thread_info();
    if info.pid != own_pid {
        return Err(RtError::ForeignProcess);
    }
    Ok(
        SchedRestore {
            pthread_id: info.pthread_id,
            policy: info.policy,
            sched_priority: info.sched_priority,
        },
    )
}

/// What a demotion came to, given what the call that sets the scheduling
/// policy and parameters returned: zero on success.
pub fn demotion_result(status: i32) -> (r: Result<(), RtError>)
    ensures
        status == 0 ==> r == Ok::<(), RtError>(()),
        status != 0 ==> r == Err::<(), RtError>(RtError::Demotion),
{
    if status != 0 {
        Err(RtError::Demotion)
    } else {
        Ok(())
    }
}

/// A promotion started by this library asks the broker for the default
/// priority lowered to the broker's maximum `max_priority`, and never for
/// more, whatever thread, process and budget it is for.
pub proof fn lemma_default_priority_clamped(
    thread_info: RtPriorityThreadInfoInternal,
    own_pid: i32,
    requested_slice_us: u64,
    max_priority: i64,
    max_rttime: i64,
    old_limit: RLimit,
    rest: Seq<Event>,
)
    requires
        max_priority >= 0,
        max_rttime >= 0,
    ensures
        ({
            let n = Negotiation::start_spec(
                thread_info,
                own_pid,
                requested_slice_us,
                RT_PRIO_DEFAULT,
            );
            let r = run(
                n,
                seq![
                    Event::Property(Ok(max_priority)),
                    Event::Property(Ok(max_rttime)),
                    Event::LimitRead(Some(old_limit)),
                    Event::LimitSet(true),
                    Event::Promotion(Ok(())),
                ] + rest,
            );
            let p: u32 = if max_priority < RT_PRIO_DEFAULT {
                max_priority as u32
            } else {
                RT_PRIO_DEFAULT
            };
            &&& r.1[3] == Action::Promote(request_for(thread_info, own_pid, p))
            &&& p <= max_priority
            &&& r.0.phase == (Phase::Done { outcome: Ok::<u32, RtError>(p) })
        }),
{
    let n = Negotiation::start_spec(thread_info, own_pid, requested_slice_us, RT_PRIO_DEFAULT);
    lemma_promotion_asks_clamped_priority(n, max_priority, max_rttime, old_limit, rest);
}

/// Whatever the broker and the kernel answer while the calling thread is
/// promoted, and whatever budget and priority were asked for, demotion of
/// the handle on the calling thread, by either path, succeeds and restores
/// exactly the policy and parameters that the capture observed, on the
/// thread that it observed.
pub proof fn lemma_demotion_restores_captured_state(
    query: ThreadQuery,
    requested_slice_us: u64,
    requested_priority: u32,
    events: Seq<Event>,
)
    requires
        query.status == 0,
    ensures
        ({
            let n = Negotiation::start_spec(
                captured(query),
                query.pid,
                requested_slice_us,
                requested_priority,
            );
            let info = run(n, events).0.thread_info;
            let before = SchedRestore {
                pthread_id: query.pthread_id,
                policy: query.policy,
                sched_priority: query.sched_priority,
            };
            &&& demote_current_spec(info, query.pid, query.pthread_id) == Ok::<
                SchedRestore,
                RtError,
            >(before)
            &&& demote_spec(info, query.pid) == Ok::<SchedRestore, RtError>(before)
        }),
{
    let n = Negotiation::start_spec(
        captured(query),
        query.pid,
        requested_slice_us,
        requested_priority,
    );
    lemma_run_keeps_thread(n, events);
}

} // verus!
