use crate::budget::{callback_duration_us, lemma_duration_bounds};
use crate::byte_order::unsigned64;
use crate::error::{AudioThreadPriorityError, LimitAccess};
use crate::rt_linux::demotion::{demotion_of, restore_of, SchedulingRestore};
use crate::rt_linux::handle::{handle_for, lemma_handle_view, RtPriorityHandleInternal};
use crate::rt_linux::negotiation::{
    abandon_request_of, limit_of, next, promotion_of_current_thread, promotion_of_thread,
    thread_info_of, Negotiation, Progress, PromotionReply, PropertyReply, Reply, Request,
    ResourceLimit, ThreadReading,
};
use crate::rt_linux::service::{
    ceiling_of, smaller, ServiceProperty, RT_PRIO_DEFAULT, SERVICE_TIMEOUT_MS,
};
use crate::rt_linux::thread_info::RtPriorityThreadInfoInternal;
use vstd::prelude::*;

verus! {

/// A model of what a promotion talks to: the calling thread as the operating
/// system shows it, the runtime limit of the process, and an elevation
/// service with its limits and its verdict.
pub struct Host {
    /// The calling thread: its identifiers, its scheduling policy and
    /// priority, and whether they can be read (`status`).
    pub thread: ThreadReading,
    /// Whether a connection to the message bus can be opened.
    pub bus_reachable: bool,
    /// What reading the priority ceiling of the service gives.
    pub max_priority: PropertyReply,
    /// What reading the runtime ceiling of the service gives.
    pub max_runtime: PropertyReply,
    /// The runtime limit of the process.
    pub limit: ResourceLimit,
    /// Whether the runtime limit can be read.
    pub limit_readable: bool,
    /// Whether the runtime limit can be written.
    pub limit_writable: bool,
    /// What the service says to a request for promotion.
    pub verdict: PromotionReply,
    /// The scheduling class in which the service puts a thread that it promotes.
    pub realtime_policy: i32,
}

/// The host after a request was carried out, and the answer it gave.
pub open spec fn answer(host: Host, request: Request) -> (Host, Reply) {
    match request {
        Request::QueryThread => (host, Reply::Thread(host.thread)),
        Request::Connect => (host, Reply::Connected(host.bus_reachable)),
        Request::ReadProperty { property, timeout_ms } => (
            host,
            Reply::Property(
                match property {
                    ServiceProperty::MaxRealtimePriority => host.max_priority,
                    ServiceProperty::RTTimeUSecMax => host.max_runtime,
                },
            ),
        ),
        Request::ReadLimit => (
            host,
            Reply::Limit {
                status: if host.limit_readable {
                    0i32
                } else {
                    -1i32
                },
                limit: host.limit,
            },
        ),
        Request::WriteLimit(limit) => if host.limit_writable {
            (Host { limit, ..host }, Reply::LimitWritten { status: 0i32 })
        } else {
            (host, Reply::LimitWritten { status: -1i32 })
        },
        Request::MakeThreadRealtime { thread, priority, timeout_ms } => match host.verdict {
            PromotionReply::Granted => (
                if thread == unsigned64(host.thread.thread_id) {
                    Host {
                        thread: ThreadReading {
                            policy: host.realtime_policy,
                            priority: priority as i32,
                            ..host.thread
                        },
                        ..host
                    }
                } else {
                    host
                },
                Reply::Promotion(PromotionReply::Granted),
            ),
            verdict => (host, Reply::Promotion(verdict)),
        },
    }
}

/// The host after a demotion set the parameters `restore`: they take effect
/// on the thread that they name.
pub open spec fn restored(host: Host, restore: SchedulingRestore) -> Host {
    if restore.pthread_id == host.thread.pthread_id {
        Host {
            thread: ThreadReading {
                policy: restore.policy,
                priority: restore.priority,
                ..host.thread
            },
            ..host
        }
    } else {
        host
    }
}

/// The host and the promotion after at most `steps` requests were carried
/// out against the host, each answer handed to the promotion.
pub open spec fn run(host: Host, progress: Progress, steps: nat) -> (Host, Progress)
    decreases steps,
{
    match progress {
        Progress::Finished(_) => (host, progress),
        Progress::Pending(state, request) => if steps == 0 {
            (host, progress)
        } else {
            let (after, reply) = answer(host, request);
            run(after, next(state, reply), (steps - 1) as nat)
        },
    }
}

/// The longest chain of requests that a promotion makes.
pub open spec fn max_requests() -> nat {
    8
}

/// The runtime limit that a promotion sets: the duration of the callback,
/// or the ceiling of the service where that is lower.
pub open spec fn raised_limit(host: Host, buffer_frames: u32, sample_rate_hz: u32) -> ResourceLimit {
    let ceiling = limit_of(Reply::Property(host.max_runtime))->Ok_0;
    let runtime = smaller(
        callback_duration_us(buffer_frames, sample_rate_hz) as u64 as int,
        ceiling_of(ceiling),
    ) as u64;
    ResourceLimit { soft: runtime, hard: runtime }
}

/// The priority that a promotion asks for: ten, or the ceiling of the
/// service where that is lower.
pub open spec fn requested_priority(host: Host) -> u32 {
    let ceiling = limit_of(Reply::Property(host.max_priority))->Ok_0;
    smaller(RT_PRIO_DEFAULT as int, ceiling_of(ceiling)) as u32
}

/// How the negotiation for the thread `thread_info` ends on a host: the
/// first step that fails decides the error, and a negotiation in which none
/// fails gives the handle of the thread.
pub open spec fn outcome_for(host: Host, thread_info: RtPriorityThreadInfoInternal) -> Result<
    RtPriorityHandleInternal,
    AudioThreadPriorityError,
> {
    if !host.bus_reachable {
        Err(AudioThreadPriorityError::ServiceUnavailable)
    } else if limit_of(Reply::Property(host.max_priority)) is Err {
        Err(limit_of(Reply::Property(host.max_priority))->Err_0)
    } else if limit_of(Reply::Property(host.max_runtime)) is Err {
        Err(limit_of(Reply::Property(host.max_runtime))->Err_0)
    } else if !host.limit_readable {
        Err(AudioThreadPriorityError::ResourceLimitError(LimitAccess::Read))
    } else if !host.limit_writable {
        Err(AudioThreadPriorityError::ResourceLimitError(LimitAccess::Write))
    } else {
        match host.verdict {
            PromotionReply::Granted => Ok(handle_for(thread_info)),
            PromotionReply::Denied => Err(AudioThreadPriorityError::PromotionDenied),
            PromotionReply::TimedOut => Err(AudioThreadPriorityError::ServiceTimeout),
        }
    }
}

/// How the promotion of the calling thread ends on a host: with an error
/// where the thread cannot be read, and else as the negotiation for the
/// thread as it was read.
pub open spec fn outcome_on(host: Host) -> Result<RtPriorityHandleInternal, AudioThreadPriorityError> {
    if host.thread.status != 0 {
        Err(AudioThreadPriorityError::QueryError)
    } else {
        outcome_for(host, thread_info_of(host.thread))
    }
}

/// The host after a promotion that succeeded: the runtime limit is raised,
/// and the promoted thread, where it is the thread of this host, runs in the
/// real-time class at the priority that was asked for.
pub open spec fn promoted(
    host: Host,
    thread_info: RtPriorityThreadInfoInternal,
    buffer_frames: u32,
    sample_rate_hz: u32,
) -> Host {
    Host {
        limit: raised_limit(host, buffer_frames, sample_rate_hz),
        thread: if thread_info.thread_id == host.thread.thread_id {
            ThreadReading {
                policy: host.realtime_policy,
                priority: requested_priority(host) as i32,
                ..host.thread
            }
        } else {
            host.thread
        },
        ..host
    }
}

/// Two 64-bit integers with the same two's complement are equal.
pub proof fn lemma_unsigned64_injective(a: i64, b: i64)
    requires
        unsigned64(a) == unsigned64(b),
    ensures
        a == b,
{
}

/// On every host the negotiation for a thread ends within seven requests,
/// as `outcome_for` says. Where it fails, the host is left as it was: the
/// runtime limit has its earlier soft and hard values. Where it succeeds,
/// the runtime limit stays raised.
pub proof fn lemma_negotiation_outcome(
    host: Host,
    thread_info: RtPriorityThreadInfoInternal,
    buffer_frames: u32,
    sample_rate_hz: u32,
)
    requires
        sample_rate_hz > 0,
    ensures
        ({
            let (after, end) = run(
                host,
                promotion_of_thread(thread_info, buffer_frames, sample_rate_hz),
                max_requests(),
            );
            &&& end == Progress::Finished(outcome_for(host, thread_info))
            &&& outcome_for(host, thread_info) is Err ==> after == host
            &&& outcome_for(host, thread_info) is Ok ==> after == promoted(
                host,
                thread_info,
                buffer_frames,
                sample_rate_hz,
            )
        }),
{
    reveal_with_fuel(run, 9);
    if thread_info.thread_id != host.thread.thread_id {
        if unsigned64(thread_info.thread_id) == unsigned64(host.thread.thread_id) {
            lemma_unsigned64_injective(thread_info.thread_id, host.thread.thread_id);
        }
    }
}

/// On every host the promotion of the calling thread ends within eight
/// requests, as `outcome_on` says. Where it fails, the host is left as it
/// was: the runtime limit has its earlier soft and hard values and the
/// thread its earlier scheduling. Where it succeeds, the runtime limit stays
/// raised and the thread runs at the priority that was asked for.
pub proof fn lemma_promotion_outcome(host: Host, buffer_frames: u32, sample_rate_hz: u32)
    requires
        sample_rate_hz > 0,
    ensures
        ({
            let (after, end) = run(
                host,
                promotion_of_current_thread(buffer_frames, sample_rate_hz),
                max_requests(),
            );
            &&& end == Progress::Finished(outcome_on(host))
            &&& outcome_on(host) is Err ==> after == host
            &&& outcome_on(host) is Ok ==> after == promoted(
                host,
                thread_info_of(host.thread),
                buffer_frames,
                sample_rate_hz,
            )
        }),
{
    reveal_with_fuel(run, 9);
}

/// Where the service refuses a promotion that got as far as being asked
/// for, the promotion ends with that refusal and the runtime limit has the
/// soft and hard values that it had before.
pub proof fn lemma_denial_restores_limit(host: Host, buffer_frames: u32, sample_rate_hz: u32)
    requires
        sample_rate_hz > 0,
        host.thread.status == 0,
        host.bus_reachable,
        limit_of(Reply::Property(host.max_priority)) is Ok,
        limit_of(Reply::Property(host.max_runtime)) is Ok,
        host.limit_readable,
        host.limit_writable,
        host.verdict == PromotionReply::Denied,
    ensures
        ({
            let (after, end) = run(
                host,
                promotion_of_current_thread(buffer_frames, sample_rate_hz),
                max_requests(),
            );
            &&& end == Progress::Finished(Err(AudioThreadPriorityError::PromotionDenied))
            &&& after.limit.soft == host.limit.soft
            &&& after.limit.hard == host.limit.hard
        }),
{
    lemma_promotion_outcome(host, buffer_frames, sample_rate_hz);
}

/// A promotion of the calling thread followed by a demotion on that thread
/// leaves the thread with the scheduling policy and priority that it had
/// before the promotion.
pub proof fn lemma_demotion_restores_scheduling(host: Host, buffer_frames: u32, sample_rate_hz: u32)
    requires
        sample_rate_hz > 0,
        outcome_on(host) is Ok,
    ensures
        ({
            let (after, end) = run(
                host,
                promotion_of_current_thread(buffer_frames, sample_rate_hz),
                max_requests(),
            );
            let handle = outcome_on(host)->Ok_0;
            let demotion = demotion_of(handle@, after.thread.pthread_id);
            &&& end == Progress::Finished(Ok(handle))
            &&& demotion == Ok::<SchedulingRestore, AudioThreadPriorityError>(
                restore_of(thread_info_of(host.thread)),
            )
            &&& restored(after, demotion->Ok_0).thread == host.thread
            &&& restored(after, demotion->Ok_0).thread.policy == host.thread.policy
            &&& restored(after, demotion->Ok_0).thread.priority == host.thread.priority
        }),
{
    lemma_promotion_outcome(host, buffer_frames, sample_rate_hz);
    lemma_handle_view(thread_info_of(host.thread));
}

/// A demotion on another thread than the one that was promoted is refused,
/// and the host stays as the promotion left it.
pub proof fn lemma_demotion_elsewhere_refused(handle: RtPriorityHandleInternal, current_thread: u64)
    requires
        current_thread != handle@.pthread_id,
    ensures
        demotion_of(handle@, current_thread) == Err::<SchedulingRestore, AudioThreadPriorityError>(
            AudioThreadPriorityError::ThreadIdentityMismatch,
        ),
{
}

/// The host after a promotion was given up in `state`.
pub open spec fn abandoned(host: Host, state: Negotiation) -> Host {
    match abandon_request_of(state) {
        Some(request) => answer(host, request).0,
        None => host,
    }
}

/// A promotion of the calling thread that is given up after any number of
/// requests, while one is still out, leaves the host as it was before the
/// promotion: the runtime limit has its earlier soft and hard values.
pub proof fn lemma_abandoned_promotion_leaves_host(
    host: Host,
    buffer_frames: u32,
    sample_rate_hz: u32,
    steps: nat,
)
    requires
        sample_rate_hz > 0,
    ensures
        ({
            let (after, progress) = run(
                host,
                promotion_of_current_thread(buffer_frames, sample_rate_hz),
                steps,
            );
            progress matches Progress::Pending(state, _) ==> abandoned(after, state) == host
        }),
{
    reveal_with_fuel(run, 9);
}

/// The requests that are carried out while `steps` allow it, first to last.
pub open spec fn requests(host: Host, progress: Progress, steps: nat) -> Seq<Request>
    decreases steps,
{
    match progress {
        Progress::Finished(_) => Seq::empty(),
        Progress::Pending(state, request) => if steps == 0 {
            Seq::empty()
        } else {
            let (after, reply) = answer(host, request);
            seq![request] + requests(after, next(state, reply), (steps - 1) as nat)
        },
    }
}

/// The requests of a promotion of the thread `thread_id` in which no step
/// fails but the last: the thread is read, the bus connected, the two
/// ceilings read, the runtime limit read and raised, the promotion asked for
/// with the clamped priority, and the runtime limit put back.
pub open spec fn script(host: Host, thread_id: i64, buffer_frames: u32, sample_rate_hz: u32) -> Seq<
    Request,
> {
    seq![
        Request::QueryThread,
        Request::Connect,
        Request::ReadProperty {
            property: ServiceProperty::MaxRealtimePriority,
            timeout_ms: SERVICE_TIMEOUT_MS,
        },
        Request::ReadProperty {
            property: ServiceProperty::RTTimeUSecMax,
            timeout_ms: SERVICE_TIMEOUT_MS,
        },
        Request::ReadLimit,
        Request::WriteLimit(raised_limit(host, buffer_frames, sample_rate_hz)),
        Request::MakeThreadRealtime {
            thread: unsigned64(thread_id),
            priority: requested_priority(host),
            timeout_ms: SERVICE_TIMEOUT_MS,
        },
        Request::WriteLimit(host.limit),
    ]
}

/// How far into `script` a negotiation gets on a host: it stops at the
/// first request that fails, and only a promotion that was asked for and
/// not granted makes the last.
pub open spec fn negotiation_end(host: Host) -> int {
    if !host.bus_reachable {
        2
    } else if limit_of(Reply::Property(host.max_priority)) is Err {
        3
    } else if limit_of(Reply::Property(host.max_runtime)) is Err {
        4
    } else if !host.limit_readable {
        5
    } else if !host.limit_writable {
        6
    } else if host.verdict == PromotionReply::Granted {
        7
    } else {
        8
    }
}

/// How many requests a promotion of the calling thread makes on a host.
pub open spec fn request_count(host: Host) -> int {
    if host.thread.status != 0 {
        1
    } else {
        negotiation_end(host)
    }
}

/// The requests of a promotion of the calling thread are the first of
/// `script`, in its order, as many as `request_count` says. So the service
/// is never asked before the runtime limit was raised, it is asked for no
/// more than its ceilings allow, and the runtime limit is put back exactly
/// when the service was asked and did not grant.
pub proof fn lemma_requests_follow_script(host: Host, buffer_frames: u32, sample_rate_hz: u32)
    requires
        sample_rate_hz > 0,
    ensures
        requests(host, promotion_of_current_thread(buffer_frames, sample_rate_hz), max_requests())
            == script(host, host.thread.thread_id, buffer_frames, sample_rate_hz).take(
            request_count(host),
        ),
{
    reveal_with_fuel(requests, 9);
    let made = requests(
        host,
        promotion_of_current_thread(buffer_frames, sample_rate_hz),
        max_requests(),
    );
    let expected = script(host, host.thread.thread_id, buffer_frames, sample_rate_hz).take(
        request_count(host),
    );
    assert(made =~= expected);
}

/// The requests of a promotion of a thread that is known already are those
/// of `script` from the second on, as far as `negotiation_end` says.
pub proof fn lemma_negotiation_follows_script(
    host: Host,
    thread_info: RtPriorityThreadInfoInternal,
    buffer_frames: u32,
    sample_rate_hz: u32,
)
    requires
        sample_rate_hz > 0,
    ensures
        requests(
            host,
            promotion_of_thread(thread_info, buffer_frames, sample_rate_hz),
            max_requests(),
        ) == script(host, thread_info.thread_id, buffer_frames, sample_rate_hz).subrange(
            1,
            negotiation_end(host),
        ),
{
    reveal_with_fuel(requests, 9);
    let made = requests(
        host,
        promotion_of_thread(thread_info, buffer_frames, sample_rate_hz),
        max_requests(),
    );
    let expected = script(host, thread_info.thread_id, buffer_frames, sample_rate_hz).subrange(
        1,
        negotiation_end(host),
    );
    assert(made =~= expected);
}

/// The priority that is asked for is the smaller of ten and the ceiling
/// that the service reports, and the runtime limit that is set the smaller
/// of the duration of the callback and the ceiling that the service reports,
/// soft and hard alike. Neither is ever above what was wanted. Where the
/// service reports a negative ceiling, both are zero.
pub proof fn lemma_request_within_ceilings(host: Host, buffer_frames: u32, sample_rate_hz: u32)
    requires
        sample_rate_hz > 0,
        limit_of(Reply::Property(host.max_priority)) is Ok,
        limit_of(Reply::Property(host.max_runtime)) is Ok,
    ensures
        ({
            let max_priority = limit_of(Reply::Property(host.max_priority))->Ok_0;
            let max_runtime = limit_of(Reply::Property(host.max_runtime))->Ok_0;
            let priority = requested_priority(host);
            let limit = raised_limit(host, buffer_frames, sample_rate_hz);
            let duration = callback_duration_us(buffer_frames, sample_rate_hz);
            &&& priority <= RT_PRIO_DEFAULT
            &&& max_priority >= 0 ==> priority == smaller(RT_PRIO_DEFAULT as int, max_priority as int)
            &&& max_priority >= 0 ==> priority <= max_priority
            &&& max_priority < 0 ==> priority == 0
            &&& limit.soft == limit.hard
            &&& limit.soft <= duration
            &&& max_runtime >= 0 ==> limit.soft == smaller(duration, max_runtime as int)
            &&& max_runtime >= 0 ==> limit.soft <= max_runtime
            &&& max_runtime < 0 ==> limit.soft == 0
        }),
{
    lemma_duration_bounds(buffer_frames, sample_rate_hz);
}

} // verus!
