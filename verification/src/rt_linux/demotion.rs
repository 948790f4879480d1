use crate::error::AudioThreadPriorityError;
use crate::rt_linux::handle::RtPriorityHandleInternal;
use crate::rt_linux::thread_info::RtPriorityThreadInfoInternal;
use vstd::prelude::*;

verus! {

/// The scheduling parameters to give back to a thread.
#[derive(Clone, Copy, Debug, PartialEq, Eq, Structural)]
pub struct SchedulingRestore {
    /// The in-process handle of the thread.
    pub pthread_id: u64,
    /// The scheduling class to set.
    pub policy: i32,
    /// The priority to set within that class.
    pub priority: i32,
}

/// The parameters that put a thread back to the state `thread_info` records.
pub open spec fn restore_of(thread_info: RtPriorityThreadInfoInternal) -> SchedulingRestore {
    SchedulingRestore {
        pthread_id: thread_info.pthread_id,
        policy: thread_info.policy,
        priority: thread_info.priority,
    }
}

/// What a demotion on the thread `current_thread` does with the state that
/// `thread_info` records: it sets the recorded parameters if that thread is
/// the recorded one, and refuses otherwise.
pub open spec fn demotion_of(thread_info: RtPriorityThreadInfoInternal, current_thread: u64) -> Result<
    SchedulingRestore,
    AudioThreadPriorityError,
> {
    if current_thread == thread_info.pthread_id {
        Ok(restore_of(thread_info))
    } else {
        Err(AudioThreadPriorityError::ThreadIdentityMismatch)
    }
}

/// Gives up the handle of the calling thread, whose in-process handle is
/// `current_thread`, for the scheduling parameters to set on it. A handle
/// that was made on another thread is refused.
pub fn demote_current_thread_from_real_time_internal(
    rt_priority_handle: RtPriorityHandleInternal,
    current_thread: u64,
) -> (restore: Result<SchedulingRestore, AudioThreadPriorityError>)
    ensures
        restore == demotion_of(rt_priority_handle@, current_thread),
        restore is Err <==> current_thread != rt_priority_handle@.pthread_id,
{
    let thread_info = rt_priority_handle.thread_info();
    if current_thread == thread_info.pthread_id {
        Ok(demote_thread_from_real_time_internal(rt_priority_handle))
    } else {
        Err(AudioThreadPriorityError::ThreadIdentityMismatch)
    }
}

/// Gives up a handle for the scheduling parameters to set on the thread it
/// names, whichever thread asks. This only puts the scheduling back to what
/// it was, so a process that could not have promoted the thread may do it.
pub fn demote_thread_from_real_time_internal(rt_priority_handle: RtPriorityHandleInternal) -> (restore:
    SchedulingRestore)
    ensures
        restore == restore_of(rt_priority_handle@),
{
    let thread_info = rt_priority_handle.thread_info();
    SchedulingRestore {
        pthread_id: thread_info.pthread_id,
        policy: thread_info.policy,
        priority: thread_info.priority,
    }
}

/// Says how a demotion ended, from what setting the parameters returned:
/// zero when they were set.
pub fn restore_outcome(status: i32) -> (outcome: Result<(), AudioThreadPriorityError>)
    ensures
        outcome == if status == 0 {
            Ok::<(), AudioThreadPriorityError>(())
        } else {
            Err::<(), AudioThreadPriorityError>(AudioThreadPriorityError::RestoreError)
        },
{
    if status == 0 {
        Ok(())
    } else {
        Err(AudioThreadPriorityError::RestoreError)
    }
}

} // verus!
