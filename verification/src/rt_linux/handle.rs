use crate::rt_linux::thread_info::RtPriorityThreadInfoInternal;
use vstd::prelude::*;

verus! {

/// The evidence that a thread was promoted: what is needed to put its earlier
/// scheduling back. It comes out of a promotion that succeeded and goes into
/// one demotion.
#[derive(Debug)]
pub struct RtPriorityHandleInternal {
    thread_info: RtPriorityThreadInfoInternal,
}

impl View for RtPriorityHandleInternal {
    type V = RtPriorityThreadInfoInternal;

    /// The identity and the earlier scheduling state of the promoted thread.
    closed spec fn view(&self) -> RtPriorityThreadInfoInternal {
        self.thread_info
    }
}

/// The handle that a promotion of the thread described by `thread_info` gives.
pub closed spec fn handle_for(thread_info: RtPriorityThreadInfoInternal) -> RtPriorityHandleInternal {
    RtPriorityHandleInternal { thread_info }
}

/// A handle holds what it was made for.
pub proof fn lemma_handle_view(thread_info: RtPriorityThreadInfoInternal)
    ensures
        handle_for(thread_info)@ == thread_info,
{
}

impl RtPriorityHandleInternal {
    pub(crate) fn new(thread_info: RtPriorityThreadInfoInternal) -> (handle: Self)
        ensures
            handle == handle_for(thread_info),
            handle@ == thread_info,
    {
        RtPriorityHandleInternal { thread_info }
    }

    /// The identity and the earlier scheduling state of the promoted thread,
    /// which can be serialised and handed to another process.
    pub fn thread_info(&self) -> (info: RtPriorityThreadInfoInternal)
        ensures
            info == self@,
    {
        self.thread_info
    }
}

} // verus!
