use crate::budget::{callback_duration_us, compute};
use crate::byte_order::{to_unsigned64, unsigned64};
use crate::error::{AudioThreadPriorityError, LimitAccess};
use crate::rt_linux::handle::{handle_for, RtPriorityHandleInternal};
use crate::rt_linux::service::{
    ceiling_of, clamp_priority, clamp_runtime, integer_of, item_as_i64, smaller, PropertyValue,
    ServiceProperty, RT_PRIO_DEFAULT, SERVICE_TIMEOUT_MS,
};
use crate::rt_linux::thread_info::RtPriorityThreadInfoInternal;
use vstd::prelude::*;

verus! {

/// The limit on the time a process may run under real-time scheduling
/// without blocking, in microseconds.
#[derive(Clone, Copy, Debug, PartialEq, Eq, Structural)]
pub struct ResourceLimit {
    /// The value that is enforced.
    pub soft: u64,
    /// The ceiling up to which the process may raise the enforced value.
    pub hard: u64,
}

/// What the operating system says of the calling thread.
#[derive(Clone, Copy, Debug, PartialEq, Eq, Structural)]
pub struct ThreadReading {
    /// The thread's identifier in the whole system.
    pub thread_id: i64,
    /// The thread's handle within its process.
    pub pthread_id: u64,
    /// What the query for the scheduling parameters returned: zero when it succeeded.
    pub status: i32,
    /// The scheduling class, where the query succeeded.
    pub policy: i32,
    /// The priority within the class, where the query succeeded.
    pub priority: i32,
}

/// How reading a limit of the service ended.
#[derive(Clone, Copy, Debug, PartialEq, Eq, Structural)]
pub enum PropertyReply {
    /// The property could not be read.
    Unavailable,
    /// The property holds this value.
    Value(PropertyValue),
}

/// How the request for promotion ended.
#[derive(Clone, Copy, Debug, PartialEq, Eq, Structural)]
pub enum PromotionReply {
    /// The service made the thread real-time.
    Granted,
    /// The service answered and refused.
    Denied,
    /// No answer came within the wait, or the connection broke.
    TimedOut,
}

/// One thing to be done outside the library on behalf of a promotion.
#[derive(Clone, Copy, Debug, PartialEq, Eq, Structural)]
pub enum Request {
    /// Read the identifiers of the calling thread and its scheduling policy and priority.
    QueryThread,
    /// Open a private connection to the system message bus.
    Connect,
    /// Read a limit of the service, waiting no longer than `timeout_ms`.
    ReadProperty { property: ServiceProperty, timeout_ms: i32 },
    /// Read the real-time runtime limit of the process.
    ReadLimit,
    /// Set the real-time runtime limit of the process.
    WriteLimit(ResourceLimit),
    /// Ask the service to make the thread `thread` real-time at `priority`,
    /// waiting no longer than `timeout_ms`.
    MakeThreadRealtime { thread: u64, priority: u32, timeout_ms: i32 },
}

/// The answer to a request.
#[derive(Clone, Copy, Debug, PartialEq, Eq, Structural)]
pub enum Reply {
    /// To `QueryThread`.
    Thread(ThreadReading),
    /// To `Connect`: whether the connection stands.
    Connected(bool),
    /// To `ReadProperty`.
    Property(PropertyReply),
    /// To `ReadLimit`: what the call returned, negative when it failed, and
    /// the limit where it did not.
    Limit { status: i32, limit: ResourceLimit },
    /// To `WriteLimit`: what the call returned, negative when it failed.
    LimitWritten { status: i32 },
    /// To `MakeThreadRealtime`.
    Promotion(PromotionReply),
}

/// A promotion under way: the request that is out, and what has been learnt so far.
#[derive(Clone, Copy, Debug)]
pub enum Negotiation {
    /// The scheduling state of the calling thread is being read.
    AwaitingThread { max_slice_us: u64, priority: u32 },
    /// The connection to the message bus is being opened.
    Connecting { thread_info: RtPriorityThreadInfoInternal, max_slice_us: u64, priority: u32 },
    /// The priority ceiling of the service is being read.
    ReadingMaxPriority {
        thread_info: RtPriorityThreadInfoInternal,
        max_slice_us: u64,
        priority: u32,
    },
    /// The runtime ceiling of the service is being read; `priority` is within its ceiling.
    ReadingMaxRuntime {
        thread_info: RtPriorityThreadInfoInternal,
        max_slice_us: u64,
        priority: u32,
    },
    /// The runtime limit of the process is being read; `runtime` is within the ceiling.
    ReadingLimit { thread_info: RtPriorityThreadInfoInternal, runtime: u64, priority: u32 },
    /// The runtime limit is being set to `runtime`; `saved` is what it was.
    RaisingLimit {
        thread_info: RtPriorityThreadInfoInternal,
        runtime: u64,
        priority: u32,
        saved: ResourceLimit,
    },
    /// The service is being asked to promote the thread.
    Requesting { thread_info: RtPriorityThreadInfoInternal, priority: u32, saved: ResourceLimit },
    /// The promotion failed with `error` and the runtime limit is being put back to `saved`.
    Unwinding { saved: ResourceLimit, error: AudioThreadPriorityError },
}

/// Where a promotion stands after an answer.
#[derive(Debug)]
pub enum Progress {
    /// The request is to be carried out and its answer handed to `step`.
    Pending(Negotiation, Request),
    /// The promotion has ended.
    Finished(Result<RtPriorityHandleInternal, AudioThreadPriorityError>),
}

/// The thread described by a reading.
pub open spec fn thread_info_of(reading: ThreadReading) -> RtPriorityThreadInfoInternal {
    RtPriorityThreadInfoInternal {
        thread_id: reading.thread_id,
        pthread_id: reading.pthread_id,
        policy: reading.policy,
        priority: reading.priority,
    }
}

/// The request that is out in a given state.
pub open spec fn request_of(state: Negotiation) -> Request {
    match state {
        Negotiation::AwaitingThread { .. } => Request::QueryThread,
        Negotiation::Connecting { .. } => Request::Connect,
        Negotiation::ReadingMaxPriority { .. } => Request::ReadProperty {
            property: ServiceProperty::MaxRealtimePriority,
            timeout_ms: SERVICE_TIMEOUT_MS,
        },
        Negotiation::ReadingMaxRuntime { .. } => Request::ReadProperty {
            property: ServiceProperty::RTTimeUSecMax,
            timeout_ms: SERVICE_TIMEOUT_MS,
        },
        Negotiation::ReadingLimit { .. } => Request::ReadLimit,
        Negotiation::RaisingLimit { runtime, .. } => Request::WriteLimit(
            ResourceLimit { soft: runtime, hard: runtime },
        ),
        Negotiation::Requesting { thread_info, priority, .. } => Request::MakeThreadRealtime {
            thread: unsigned64(thread_info.thread_id),
            priority,
            timeout_ms: SERVICE_TIMEOUT_MS,
        },
        Negotiation::Unwinding { saved, .. } => Request::WriteLimit(saved),
    }
}

/// A promotion that goes on in `state`.
pub open spec fn pending(state: Negotiation) -> Progress {
    Progress::Pending(state, request_of(state))
}

/// A promotion that has failed.
pub open spec fn failed(error: AudioThreadPriorityError) -> Progress {
    Progress::Finished(Err(error))
}

/// The integer that a reply to `ReadProperty` carries, or the error that
/// stands for its absence: a reply of another kind counts as no answer.
pub open spec fn limit_of(reply: Reply) -> Result<i64, AudioThreadPriorityError> {
    match reply {
        Reply::Property(PropertyReply::Value(value)) => match integer_of(value) {
            Some(n) => Ok(n),
            None => Err(AudioThreadPriorityError::TypeMismatch),
        },
        _ => Err(AudioThreadPriorityError::PropertyUnavailable),
    }
}

/// Where a promotion in `state` stands after `reply`. An answer of another
/// kind than the request in `state` asks for counts as the failure of that
/// request. Where the service does not grant, the runtime limit is put back
/// before the promotion ends, and the promotion ends with the error of the
/// service whether or not the limit could be put back.
pub open spec fn next(state: Negotiation, reply: Reply) -> Progress {
    match state {
        Negotiation::AwaitingThread { max_slice_us, priority } => match reply {
            Reply::Thread(reading) if reading.status == 0 => pending(
                Negotiation::Connecting {
                    thread_info: thread_info_of(reading),
                    max_slice_us,
                    priority,
                },
            ),
            _ => failed(AudioThreadPriorityError::QueryError),
        },
        Negotiation::Connecting { thread_info, max_slice_us, priority } => match reply {
            Reply::Connected(true) => pending(
                Negotiation::ReadingMaxPriority { thread_info, max_slice_us, priority },
            ),
            _ => failed(AudioThreadPriorityError::ServiceUnavailable),
        },
        Negotiation::ReadingMaxPriority { thread_info, max_slice_us, priority } => match limit_of(
            reply,
        ) {
            Ok(ceiling) => pending(
                Negotiation::ReadingMaxRuntime {
                    thread_info,
                    max_slice_us,
                    priority: smaller(priority as int, ceiling_of(ceiling)) as u32,
                },
            ),
            Err(error) => failed(error),
        },
        Negotiation::ReadingMaxRuntime { thread_info, max_slice_us, priority } => match limit_of(
            reply,
        ) {
            Ok(ceiling) => pending(
                Negotiation::ReadingLimit {
                    thread_info,
                    runtime: smaller(max_slice_us as int, ceiling_of(ceiling)) as u64,
                    priority,
                },
            ),
            Err(error) => failed(error),
        },
        Negotiation::ReadingLimit { thread_info, runtime, priority } => match reply {
            Reply::Limit { status, limit } if status >= 0 => pending(
                Negotiation::RaisingLimit { thread_info, runtime, priority, saved: limit },
            ),
            _ => failed(AudioThreadPriorityError::ResourceLimitError(LimitAccess::Read)),
        },
        Negotiation::RaisingLimit { thread_info, runtime, priority, saved } => match reply {
            Reply::LimitWritten { status } if status >= 0 => pending(
                Negotiation::Requesting { thread_info, priority, saved },
            ),
            _ => failed(AudioThreadPriorityError::ResourceLimitError(LimitAccess::Write)),
        },
        Negotiation::Requesting { thread_info, priority, saved } => match reply {
            Reply::Promotion(PromotionReply::Granted) => Progress::Finished(
                Ok(handle_for(thread_info)),
            ),
            Reply::Promotion(PromotionReply::Denied) => pending(
                Negotiation::Unwinding { saved, error: AudioThreadPriorityError::PromotionDenied },
            ),
            _ => pending(
                Negotiation::Unwinding { saved, error: AudioThreadPriorityError::ServiceTimeout },
            ),
        },
        Negotiation::Unwinding { saved, error } => failed(error),
    }
}

/// The promotion of the calling thread, before its first request.
pub open spec fn promotion_of_current_thread(buffer_frames: u32, sample_rate_hz: u32) -> Progress {
    pending(
        Negotiation::AwaitingThread {
            max_slice_us: callback_duration_us(buffer_frames, sample_rate_hz) as u64,
            priority: RT_PRIO_DEFAULT,
        },
    )
}

/// The promotion of the thread `thread_info`, before its first request.
pub open spec fn promotion_of_thread(
    thread_info: RtPriorityThreadInfoInternal,
    buffer_frames: u32,
    sample_rate_hz: u32,
) -> Progress {
    pending(
        Negotiation::Connecting {
            thread_info,
            max_slice_us: callback_duration_us(buffer_frames, sample_rate_hz) as u64,
            priority: RT_PRIO_DEFAULT,
        },
    )
}

/// What puts the runtime limit back when a promotion is given up in
/// `state`: the limit that was saved, from the moment it may have been
/// raised; nothing before.
pub open spec fn abandon_request_of(state: Negotiation) -> Option<Request> {
    match state {
        Negotiation::RaisingLimit { saved, .. } => Some(Request::WriteLimit(saved)),
        Negotiation::Requesting { saved, .. } => Some(Request::WriteLimit(saved)),
        Negotiation::Unwinding { saved, .. } => Some(Request::WriteLimit(saved)),
        _ => None,
    }
}

impl Negotiation {
    /// The request to carry out where the promotion is given up in this
    /// state without an answer, as when the caller unwinds: it undoes what
    /// the promotion has changed so far.
    pub fn abandon(&self) -> (request: Option<Request>)
        ensures
            request == abandon_request_of(*self),
    {
        match *self {
            Negotiation::RaisingLimit { saved, .. } => Some(Request::WriteLimit(saved)),
            Negotiation::Requesting { saved, .. } => Some(Request::WriteLimit(saved)),
            Negotiation::Unwinding { saved, .. } => Some(Request::WriteLimit(saved)),
            _ => None,
        }
    }

    /// The request that is out in this state.
    pub fn request(&self) -> (request: Request)
        ensures
            request == request_of(*self),
    {
        match *self {
            Negotiation::AwaitingThread { .. } => Request::QueryThread,
            Negotiation::Connecting { .. } => Request::Connect,
            Negotiation::ReadingMaxPriority { .. } => Request::ReadProperty {
                property: ServiceProperty::MaxRealtimePriority,
                timeout_ms: SERVICE_TIMEOUT_MS,
            },
            Negotiation::ReadingMaxRuntime { .. } => Request::ReadProperty {
                property: ServiceProperty::RTTimeUSecMax,
                timeout_ms: SERVICE_TIMEOUT_MS,
            },
            Negotiation::ReadingLimit { .. } => Request::ReadLimit,
            Negotiation::RaisingLimit { runtime, .. } => Request::WriteLimit(
                ResourceLimit { soft: runtime, hard: runtime },
            ),
            Negotiation::Requesting { thread_info, priority, .. } => rtkit_set_realtime(
                to_unsigned64(thread_info.thread_id),
                priority,
            ),
            Negotiation::Unwinding { saved, .. } => Request::WriteLimit(saved),
        }
    }

    /// Takes the answer to the request that is out and says what follows:
    /// the next request, or the end of the promotion.
    pub fn step(self, reply: Reply) -> (progress: Progress)
        ensures
            progress == next(self, reply),
            progress matches Progress::Finished(Ok(handle)) ==> self matches Negotiation::Requesting {
                thread_info,
                ..
            } && handle@ == thread_info,
    {
        match self {
            Negotiation::AwaitingThread { max_slice_us, priority } => match reply {
                Reply::Thread(reading) => match get_current_thread_info_internal(reading) {
                    Ok(thread_info) => make_realtime(thread_info, max_slice_us, priority),
                    Err(error) => Progress::Finished(Err(error)),
                },
                _ => Progress::Finished(Err(AudioThreadPriorityError::QueryError)),
            },
            Negotiation::Connecting { thread_info, max_slice_us, priority } => match reply {
                Reply::Connected(true) => proceed(
                    Negotiation::ReadingMaxPriority { thread_info, max_slice_us, priority },
                ),
                _ => Progress::Finished(Err(AudioThreadPriorityError::ServiceUnavailable)),
            },
            Negotiation::ReadingMaxPriority { thread_info, max_slice_us, priority } => {
                match reported_limit(reply) {
                    Ok(ceiling) => proceed(
                        Negotiation::ReadingMaxRuntime {
                            thread_info,
                            max_slice_us,
                            priority: clamp_priority(priority, ceiling),
                        },
                    ),
                    Err(error) => Progress::Finished(Err(error)),
                }
            },
            Negotiation::ReadingMaxRuntime { thread_info, max_slice_us, priority } => {
                match reported_limit(reply) {
                    Ok(ceiling) => proceed(
                        Negotiation::ReadingLimit {
                            thread_info,
                            runtime: clamp_runtime(max_slice_us, ceiling),
                            priority,
                        },
                    ),
                    Err(error) => Progress::Finished(Err(error)),
                }
            },
            Negotiation::ReadingLimit { thread_info, runtime, priority } => match reply {
                Reply::Limit { status, limit } => {
                    if status >= 0 {
                        proceed(
                            Negotiation::RaisingLimit {
                                thread_info,
                                runtime,
                                priority,
                                saved: limit,
                            },
                        )
                    } else {
                        Progress::Finished(
                            Err(AudioThreadPriorityError::ResourceLimitError(LimitAccess::Read)),
                        )
                    }
                },
                _ => Progress::Finished(
                    Err(AudioThreadPriorityError::ResourceLimitError(LimitAccess::Read)),
                ),
            },
            Negotiation::RaisingLimit { thread_info, runtime, priority, saved } => match reply {
                Reply::LimitWritten { status } => {
                    if status >= 0 {
                        proceed(Negotiation::Requesting { thread_info, priority, saved })
                    } else {
                        Progress::Finished(
                            Err(AudioThreadPriorityError::ResourceLimitError(LimitAccess::Write)),
                        )
                    }
                },
                _ => Progress::Finished(
                    Err(AudioThreadPriorityError::ResourceLimitError(LimitAccess::Write)),
                ),
            },
            Negotiation::Requesting { thread_info, priority, saved } => match reply {
                Reply::Promotion(PromotionReply::Granted) => Progress::Finished(
                    Ok(RtPriorityHandleInternal::new(thread_info)),
                ),
                Reply::Promotion(PromotionReply::Denied) => proceed(
                    Negotiation::Unwinding {
                        saved,
                        error: AudioThreadPriorityError::PromotionDenied,
                    },
                ),
                _ => proceed(
                    Negotiation::Unwinding {
                        saved,
                        error: AudioThreadPriorityError::ServiceTimeout,
                    },
                ),
            },
            Negotiation::Unwinding { saved, error } => Progress::Finished(Err(error)),
        }
    }
}

/// The call that asks the service to make the thread `thread` real-time at
/// priority `prio`: the answer is waited for no longer than ten seconds.
pub fn rtkit_set_realtime(thread: u64, prio: u32) -> (request: Request)
    ensures
        request == (Request::MakeThreadRealtime {
            thread,
            priority: prio,
            timeout_ms: SERVICE_TIMEOUT_MS,
        }),
{
    Request::MakeThreadRealtime { thread, priority: prio, timeout_ms: SERVICE_TIMEOUT_MS }
}

/// Goes on in `state` with the request that belongs to it.
fn proceed(state: Negotiation) -> (progress: Progress)
    ensures
        progress == pending(state),
{
    let request = state.request();
    Progress::Pending(state, request)
}

/// The integer that an answer to `ReadProperty` carries.
fn reported_limit(reply: Reply) -> (limit: Result<i64, AudioThreadPriorityError>)
    ensures
        limit == limit_of(reply),
{
    match reply {
        Reply::Property(PropertyReply::Value(value)) => item_as_i64(value),
        _ => Err(AudioThreadPriorityError::PropertyUnavailable),
    }
}

/// Takes what the operating system said of the calling thread and gives the
/// thread's identity and scheduling state, which can be serialised and sent
/// to another process. It is enough to have another process promote the
/// thread and to put the thread's scheduling back afterwards.
pub fn get_current_thread_info_internal(reading: ThreadReading) -> (info: Result<
    RtPriorityThreadInfoInternal,
    AudioThreadPriorityError,
>)
    ensures
        info == if reading.status == 0 {
            Ok::<RtPriorityThreadInfoInternal, AudioThreadPriorityError>(thread_info_of(reading))
        } else {
            Err::<RtPriorityThreadInfoInternal, AudioThreadPriorityError>(
                AudioThreadPriorityError::QueryError,
            )
        },
{
    if reading.status == 0 {
        Ok(
            RtPriorityThreadInfoInternal {
                thread_id: reading.thread_id,
                pthread_id: reading.pthread_id,
                policy: reading.policy,
                priority: reading.priority,
            },
        )
    } else {
        Err(AudioThreadPriorityError::QueryError)
    }
}

/// Begins the negotiation that makes the thread `thread_info` real-time: at
/// most at priority `prio`, with a runtime limit of at most `max_slice_us`
/// microseconds.
pub fn make_realtime(thread_info: RtPriorityThreadInfoInternal, max_slice_us: u64, prio: u32) -> (progress:
    Progress)
    ensures
        progress == pending(Negotiation::Connecting { thread_info, max_slice_us, priority: prio }),
{
    proceed(Negotiation::Connecting { thread_info, max_slice_us, priority: prio })
}

/// Begins the promotion of the calling thread, whose callback renders
/// `audio_buffer_frames` frames at `audio_samplerate_hz` frames a second.
pub fn promote_current_thread_to_real_time_internal(
    audio_buffer_frames: u32,
    audio_samplerate_hz: u32,
) -> (progress: Progress)
    requires
        audio_samplerate_hz > 0,
    ensures
        progress == promotion_of_current_thread(audio_buffer_frames, audio_samplerate_hz),
        progress is Pending,
        progress->Pending_1 == Request::QueryThread,
{
    let budget = compute(audio_buffer_frames, audio_samplerate_hz);
    proceed(
        Negotiation::AwaitingThread {
            max_slice_us: budget.max_slice_us(),
            priority: RT_PRIO_DEFAULT,
        },
    )
}

/// Begins the promotion of a thread, possibly of another process, that is
/// known by its `thread_info`.
pub fn promote_thread_to_real_time_internal(
    thread_info: RtPriorityThreadInfoInternal,
    audio_buffer_frames: u32,
    audio_samplerate_hz: u32,
) -> (progress: Progress)
    requires
        audio_samplerate_hz > 0,
    ensures
        progress == promotion_of_thread(thread_info, audio_buffer_frames, audio_samplerate_hz),
        progress is Pending,
        progress->Pending_1 == Request::Connect,
{
    let budget = compute(audio_buffer_frames, audio_samplerate_hz);
    make_realtime(thread_info, budget.max_slice_us(), RT_PRIO_DEFAULT)
}

} // verus!
