//! Promotion through the multimedia class scheduler service.

use crate::error::AudioThreadPriorityError;
use vstd::prelude::*;

verus! {

/// The task of the scheduler service that an audio thread joins.
pub const MMCSS_TASK: &'static str = "Audio";

/// Whether a call that returns a truth value succeeded: any value but zero says so.
pub fn ok(rv: i32) -> (succeeded: bool)
    ensures
        succeeded == (rv != 0),
{
    rv != 0
}

/// Whether a handle stands for nothing: the null handle and the handle of
/// all bits set do.
pub fn invalid_handle(handle: isize) -> (invalid: bool)
    ensures
        invalid == (handle == 0 || handle == -1),
{
    handle == 0 || handle == -1
}

/// Turns a condition that signals failure into an error that carries the
/// last error code of the calling thread.
pub fn win32_error_if(condition: bool, last_error: u32) -> (checked: Result<(), u32>)
    ensures
        checked == if condition {
            Err::<(), u32>(last_error)
        } else {
            Ok::<(), u32>(())
        },
{
    if condition {
        Err(last_error)
    } else {
        Ok(())
    }
}

/// A task of the scheduler service that a thread joined.
#[derive(Clone, Copy, Debug, PartialEq, Eq, Structural)]
pub struct JoinedTask {
    pub mmcss_task_index: u32,
    pub task_handle: isize,
}

/// The evidence that a thread was promoted: the task that it joined. It
/// goes into one demotion.
#[derive(Debug)]
pub struct RtPriorityHandleInternal {
    mmcss_task_index: u32,
    task_handle: isize,
}

impl View for RtPriorityHandleInternal {
    type V = JoinedTask;

    /// The task that the thread joined.
    closed spec fn view(&self) -> JoinedTask {
        JoinedTask { mmcss_task_index: self.mmcss_task_index, task_handle: self.task_handle }
    }
}

/// The handle of a thread that joined `task`.
pub closed spec fn handle_for(task: JoinedTask) -> RtPriorityHandleInternal {
    RtPriorityHandleInternal {
        mmcss_task_index: task.mmcss_task_index,
        task_handle: task.task_handle,
    }
}

/// A handle holds the task that it was made for.
pub proof fn lemma_handle_view(task: JoinedTask)
    ensures
        handle_for(task)@ == task,
{
}

impl RtPriorityHandleInternal {
    /// The handle of a thread that joined the task `task_handle`, of index `mmcss_task_index`.
    pub fn new(mmcss_task_index: u32, task_handle: isize) -> (handle: RtPriorityHandleInternal)
        ensures
            handle == handle_for(JoinedTask { mmcss_task_index, task_handle }),
            handle@ == (JoinedTask { mmcss_task_index, task_handle }),
    {
        RtPriorityHandleInternal { mmcss_task_index, task_handle }
    }

    /// The index of the task that the thread joined.
    pub fn mmcss_task_index(&self) -> (index: u32)
        ensures
            index == self@.mmcss_task_index,
    {
        self.mmcss_task_index
    }

    /// The handle of the task that the thread joined.
    pub fn task_handle(&self) -> (task_handle: isize)
        ensures
            task_handle == self@.task_handle,
    {
        self.task_handle
    }
}

/// The one thing to be done outside the library for a promotion or a demotion.
#[derive(Clone, Copy, Debug, PartialEq, Eq)]
pub enum Request {
    /// Have the calling thread join the named task of the scheduler service.
    JoinTask { task_name: &'static str },
    /// Have the calling thread leave the task.
    LeaveTask { task_handle: isize },
}

/// The answer to a request.
#[derive(Clone, Copy, Debug, PartialEq, Eq, Structural)]
pub enum Reply {
    /// To `JoinTask`: the index of the task and the handle that the service gave.
    Joined { mmcss_task_index: u32, task_handle: isize },
    /// To `LeaveTask`: the truth value that the service returned.
    Left { rv: i32 },
}

/// Says what is to be done to promote the calling thread. The service
/// takes no account of the size of the buffer or of the sample rate.
pub fn promote_current_thread_to_real_time_internal(
    _audio_buffer_frames: u32,
    _audio_samplerate_hz: u32,
) -> (request: Request)
    ensures
        request == (Request::JoinTask { task_name: MMCSS_TASK }),
{
    Request::JoinTask { task_name: MMCSS_TASK }
}

/// How a promotion ended, from the answer of the service.
pub open spec fn promotion_of(reply: Reply) -> Result<
    RtPriorityHandleInternal,
    AudioThreadPriorityError,
> {
    match reply {
        Reply::Joined { mmcss_task_index, task_handle } if task_handle != 0 && task_handle != -1
            => Ok(handle_for(JoinedTask { mmcss_task_index, task_handle })),
        _ => Err(AudioThreadPriorityError::PromotionDenied),
    }
}

/// Says how a promotion ended: with the handle of the task that the thread
/// joined, or with a refusal where the service gave no valid handle.
pub fn promotion_outcome(reply: Reply) -> (outcome: Result<
    RtPriorityHandleInternal,
    AudioThreadPriorityError,
>)
    ensures
        outcome == promotion_of(reply),
        outcome matches Ok(handle) ==> reply matches Reply::Joined {
            mmcss_task_index,
            task_handle,
        } && handle@ == (JoinedTask { mmcss_task_index, task_handle }),
        outcome is Ok <==> (reply matches Reply::Joined { task_handle, .. } && task_handle != 0
            && task_handle != -1),
{
    match reply {
        Reply::Joined { mmcss_task_index, task_handle } => {
            let handle = RtPriorityHandleInternal::new(mmcss_task_index, task_handle);
            if invalid_handle(handle.task_handle()) {
                Err(AudioThreadPriorityError::PromotionDenied)
            } else {
                Ok(handle)
            }
        },
        _ => Err(AudioThreadPriorityError::PromotionDenied),
    }
}

/// Gives up a handle and says what is to be done to demote the calling thread.
pub fn demote_current_thread_from_real_time_internal(rt_priority_handle: RtPriorityHandleInternal) -> (request:
    Request)
    ensures
        request == (Request::LeaveTask { task_handle: rt_priority_handle@.task_handle }),
{
    Request::LeaveTask { task_handle: rt_priority_handle.task_handle() }
}

/// Says how a demotion ended: well where the service returned a value
/// other than zero.
pub fn demotion_outcome(reply: Reply) -> (outcome: Result<(), AudioThreadPriorityError>)
    ensures
        outcome == if reply matches Reply::Left { rv } && rv != 0 {
            Ok::<(), AudioThreadPriorityError>(())
        } else {
            Err::<(), AudioThreadPriorityError>(AudioThreadPriorityError::RestoreError)
        },
{
    match reply {
        Reply::Left { rv } => {
            if ok(rv) {
                Ok(())
            } else {
                Err(AudioThreadPriorityError::RestoreError)
            }
        },
        _ => Err(AudioThreadPriorityError::RestoreError),
    }
}

/// A thread that joined a task leaves that very task when it is demoted.
pub proof fn lemma_demotion_leaves_joined_task(mmcss_task_index: u32, task_handle: isize)
    requires
        task_handle != 0,
        task_handle != -1,
    ensures
        promotion_of(Reply::Joined { mmcss_task_index, task_handle }) is Ok,
        promotion_of(Reply::Joined { mmcss_task_index, task_handle })->Ok_0@ == (JoinedTask {
            mmcss_task_index,
            task_handle,
        }),
{
    lemma_handle_view(JoinedTask { mmcss_task_index, task_handle });
}

} // verus!
