//! Promotion through the thread priorities of the Java runtime.

use crate::error::AudioThreadPriorityError;
use vstd::prelude::*;

verus! {

/// The class of the runtime that reads and sets thread priorities.
pub const PROCESS_CLASS: &'static str = "java/sdk/Process";

/// The priority of a thread that renders audio.
pub const THREAD_PRIORITY_URGENT_AUDIO: i32 = -19;

/// The evidence that a thread was promoted: the priority that it had
/// before. It comes out of a promotion that succeeded and goes into one
/// demotion.
#[derive(Debug)]
pub struct RtPriorityHandleInternal {
    previous_priority: i32,
}

impl View for RtPriorityHandleInternal {
    type V = i32;

    /// The priority that the thread had before it was promoted.
    closed spec fn view(&self) -> i32 {
        self.previous_priority
    }
}

/// The handle of a thread that had the priority `previous`.
pub closed spec fn handle_for(previous: i32) -> RtPriorityHandleInternal {
    RtPriorityHandleInternal { previous_priority: previous }
}

/// A handle holds the priority that it was made for.
pub proof fn lemma_handle_view(previous: i32)
    ensures
        handle_for(previous)@ == previous,
{
}

impl RtPriorityHandleInternal {
    /// The priority that the thread had before it was promoted.
    pub fn previous_priority(&self) -> (previous: i32)
        ensures
            previous == self@,
    {
        self.previous_priority
    }
}

/// One thing to be done outside the library on behalf of a promotion or a demotion.
#[derive(Clone, Copy, Debug, PartialEq, Eq, Structural)]
pub enum Request {
    /// Attach the calling thread to the Java runtime.
    Attach,
    /// Read the priority of the calling thread.
    GetThreadPriority,
    /// Set the priority of the calling thread.
    SetThreadPriority(i32),
}

/// The answer to a request.
#[derive(Clone, Copy, Debug, PartialEq, Eq)]
pub enum Reply {
    /// To `Attach`: whether the thread is attached.
    Attached(bool),
    /// To `GetThreadPriority`: the priority, where it could be read.
    Priority(Option<i32>),
    /// To `SetThreadPriority`: whether the priority was set.
    PrioritySet(bool),
}

/// A promotion under way.
#[derive(Clone, Copy, Debug, PartialEq, Eq, Structural)]
pub enum Promotion {
    /// The thread is being attached to the runtime.
    Attaching,
    /// The priority of the thread is being read.
    ReadingPriority,
    /// The priority of the thread is being set; `previous` is what it was.
    SettingPriority { previous: i32 },
}

/// Where a promotion stands after an answer.
#[derive(Debug)]
pub enum Progress {
    /// The request is to be carried out and its answer handed to `step`.
    Pending(Promotion, Request),
    /// The promotion has ended.
    Finished(Result<RtPriorityHandleInternal, AudioThreadPriorityError>),
}

/// The request that is out in a given state.
pub open spec fn request_of(state: Promotion) -> Request {
    match state {
        Promotion::Attaching => Request::Attach,
        Promotion::ReadingPriority => Request::GetThreadPriority,
        Promotion::SettingPriority { .. } => Request::SetThreadPriority(
            THREAD_PRIORITY_URGENT_AUDIO,
        ),
    }
}

/// A promotion that goes on in `state`.
pub open spec fn pending(state: Promotion) -> Progress {
    Progress::Pending(state, request_of(state))
}

/// Where a promotion in `state` stands after `reply`: the thread is
/// attached, its priority read and then set, and the first of these that
/// fails ends the promotion. An answer of another kind counts as a failure.
pub open spec fn next(state: Promotion, reply: Reply) -> Progress {
    match state {
        Promotion::Attaching => match reply {
            Reply::Attached(true) => pending(Promotion::ReadingPriority),
            _ => Progress::Finished(Err(AudioThreadPriorityError::ServiceUnavailable)),
        },
        Promotion::ReadingPriority => match reply {
            Reply::Priority(Some(previous)) => pending(Promotion::SettingPriority { previous }),
            _ => Progress::Finished(Err(AudioThreadPriorityError::QueryError)),
        },
        Promotion::SettingPriority { previous } => match reply {
            Reply::PrioritySet(true) => Progress::Finished(Ok(handle_for(previous))),
            _ => Progress::Finished(Err(AudioThreadPriorityError::PromotionDenied)),
        },
    }
}

impl Promotion {
    /// The request that is out in this state.
    pub fn request(&self) -> (request: Request)
        ensures
            request == request_of(*self),
    {
        match self {
            Promotion::Attaching => Request::Attach,
            Promotion::ReadingPriority => Request::GetThreadPriority,
            Promotion::SettingPriority { .. } => Request::SetThreadPriority(
                THREAD_PRIORITY_URGENT_AUDIO,
            ),
        }
    }

    /// Takes the answer to the request that is out and says what follows:
    /// the next request, or the end of the promotion.
    pub fn step(self, reply: Reply) -> (progress: Progress)
        ensures
            progress == next(self, reply),
            progress matches Progress::Finished(Ok(handle)) ==> self matches Promotion::SettingPriority {
                previous,
            } && handle@ == previous,
    {
        match self {
            Promotion::Attaching => match reply {
                Reply::Attached(true) => Progress::Pending(
                    Promotion::ReadingPriority,
                    Request::GetThreadPriority,
                ),
                _ => Progress::Finished(Err(AudioThreadPriorityError::ServiceUnavailable)),
            },
            Promotion::ReadingPriority => match reply {
                Reply::Priority(Some(previous)) => Progress::Pending(
                    Promotion::SettingPriority { previous },
                    Request::SetThreadPriority(THREAD_PRIORITY_URGENT_AUDIO),
                ),
                _ => Progress::Finished(Err(AudioThreadPriorityError::QueryError)),
            },
            Promotion::SettingPriority { previous } => match reply {
                Reply::PrioritySet(true) => Progress::Finished(
                    Ok(RtPriorityHandleInternal { previous_priority: previous }),
                ),
                _ => Progress::Finished(Err(AudioThreadPriorityError::PromotionDenied)),
            },
        }
    }
}

/// Begins the promotion of the calling thread through the Java runtime.
pub fn promote_current_thread_to_real_time_with_jvm() -> (progress: Progress)
    ensures
        progress == pending(Promotion::Attaching),
{
    Progress::Pending(Promotion::Attaching, Request::Attach)
}

/// Gives up a handle and says what is to be done to demote the calling
/// thread: its priority is set to what it was before the promotion.
pub fn demote_current_thread_from_real_time_internal(rt_priority_handle: RtPriorityHandleInternal) -> (request:
    Request)
    ensures
        request == Request::SetThreadPriority(rt_priority_handle@),
{
    Request::SetThreadPriority(rt_priority_handle.previous_priority())
}

/// Says how a demotion ended: well where the priority was set.
pub fn demotion_outcome(reply: Reply) -> (outcome: Result<(), AudioThreadPriorityError>)
    ensures
        outcome == if reply == Reply::PrioritySet(true) {
            Ok::<(), AudioThreadPriorityError>(())
        } else {
            Err::<(), AudioThreadPriorityError>(AudioThreadPriorityError::RestoreError)
        },
{
    match reply {
        Reply::PrioritySet(true) => Ok(()),
        _ => Err(AudioThreadPriorityError::RestoreError),
    }
}

/// A promotion in which every step succeeds asks for the priority of
/// urgent audio, and the demotion that follows asks for the priority that
/// the thread had before.
pub proof fn lemma_demotion_restores_priority(previous: i32)
    ensures
        ({
            let attached = next(Promotion::Attaching, Reply::Attached(true));
            let read = next(attached->Pending_0, Reply::Priority(Some(previous)));
            let set = next(read->Pending_0, Reply::PrioritySet(true));
            &&& attached == pending(Promotion::ReadingPriority)
            &&& read == pending(Promotion::SettingPriority { previous })
            &&& read->Pending_1 == Request::SetThreadPriority(THREAD_PRIORITY_URGENT_AUDIO)
            &&& set == Progress::Finished(Ok(handle_for(previous)))
            &&& set->Finished_0->Ok_0@ == previous
        }),
{
    lemma_handle_view(previous);
}

} // verus!
