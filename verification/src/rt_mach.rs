//! Promotion through the thread policies of the Mach kernel.

use crate::budget::{budget_of, compute, RealtimeBudget};
use crate::error::AudioThreadPriorityError;
use vstd::prelude::*;

verus! {

/// What the kernel returns for a call that succeeded.
pub const KERN_SUCCESS: i32 = 0;

/// The importance given to a promoted thread.
pub const REALTIME_IMPORTANCE: i32 = 63;

/// Whether a thread shares the processor by time slices.
#[derive(Clone, Copy, Debug, PartialEq, Eq, Structural)]
pub struct ExtendedPolicy {
    pub timeshare: u32,
}

/// The importance of a thread among those of its task.
#[derive(Clone, Copy, Debug, PartialEq, Eq, Structural)]
pub struct PrecedencePolicy {
    pub importance: i32,
}

/// The time constraints of a thread, in the kernel's units of time.
#[derive(Clone, Copy, Debug, PartialEq, Eq, Structural)]
pub struct TimeConstraintPolicy {
    pub period: u32,
    pub computation: u32,
    pub constraint: u32,
    pub preemptible: u32,
}

/// One of the three policies of a thread.
#[derive(Clone, Copy, Debug, PartialEq, Eq, Structural)]
pub enum Policy {
    Extended(ExtendedPolicy),
    Precedence(PrecedencePolicy),
    TimeConstraint(TimeConstraintPolicy),
}

/// Which of the three policies is meant.
#[derive(Clone, Copy, Debug, PartialEq, Eq, Structural)]
pub enum PolicyFlavor {
    Extended,
    Precedence,
    TimeConstraint,
}

/// What a promotion records of a thread: the thread, and the three
/// policies that it had before.
#[derive(Clone, Copy, Debug, PartialEq, Eq, Structural)]
pub struct PreviousPolicies {
    pub tid: u32,
    pub time_share: ExtendedPolicy,
    pub precedence: PrecedencePolicy,
    pub time_constraint: TimeConstraintPolicy,
}

/// The evidence that a thread was promoted. It comes out of a promotion
/// that succeeded and goes into one demotion.
#[derive(Debug)]
pub struct RtPriorityHandle {
    tid: u32,
    previous_time_share: ExtendedPolicy,
    previous_precedence_policy: PrecedencePolicy,
    previous_time_constraint_policy: TimeConstraintPolicy,
}

impl View for RtPriorityHandle {
    type V = PreviousPolicies;

    /// What the handle records.
    closed spec fn view(&self) -> PreviousPolicies {
        PreviousPolicies {
            tid: self.tid,
            time_share: self.previous_time_share,
            precedence: self.previous_precedence_policy,
            time_constraint: self.previous_time_constraint_policy,
        }
    }
}

/// The handle that records `recorded`.
pub closed spec fn handle_for(recorded: PreviousPolicies) -> RtPriorityHandle {
    RtPriorityHandle {
        tid: recorded.tid,
        previous_time_share: recorded.time_share,
        previous_precedence_policy: recorded.precedence,
        previous_time_constraint_policy: recorded.time_constraint,
    }
}

/// A handle records what it was made for.
pub proof fn lemma_handle_view(recorded: PreviousPolicies)
    ensures
        handle_for(recorded)@ == recorded,
{
}

/// The record in which nothing is recorded yet.
pub open spec fn blank() -> PreviousPolicies {
    PreviousPolicies {
        tid: 0,
        time_share: ExtendedPolicy { timeshare: 0 },
        precedence: PrecedencePolicy { importance: 0 },
        time_constraint: TimeConstraintPolicy {
            period: 0,
            computation: 0,
            constraint: 0,
            preemptible: 0,
        },
    }
}

impl RtPriorityHandle {
    /// A handle in which nothing is recorded yet.
    pub fn new() -> (handle: RtPriorityHandle)
        ensures
            handle == handle_for(blank()),
            handle@ == blank(),
    {
        RtPriorityHandle {
            tid: 0,
            previous_time_share: ExtendedPolicy { timeshare: 0 },
            previous_precedence_policy: PrecedencePolicy { importance: 0 },
            previous_time_constraint_policy: TimeConstraintPolicy {
                period: 0,
                computation: 0,
                constraint: 0,
                preemptible: 0,
            },
        }
    }

    /// The handle of a promotion that recorded `recorded`.
    fn of(recorded: PreviousPolicies) -> (handle: RtPriorityHandle)
        ensures
            handle == handle_for(recorded),
            handle@ == recorded,
    {
        RtPriorityHandle {
            tid: recorded.tid,
            previous_time_share: recorded.time_share,
            previous_precedence_policy: recorded.precedence,
            previous_time_constraint_policy: recorded.time_constraint,
        }
    }

    /// What the handle records.
    pub fn recorded(&self) -> (recorded: PreviousPolicies)
        ensures
            recorded == self@,
    {
        PreviousPolicies {
            tid: self.tid,
            time_share: self.previous_time_share,
            precedence: self.previous_precedence_policy,
            time_constraint: self.previous_time_constraint_policy,
        }
    }
}

/// One thing to be done outside the library on behalf of a promotion or a demotion.
#[derive(Clone, Copy, Debug, PartialEq, Eq, Structural)]
pub enum Request {
    /// Name the calling thread.
    CurrentThread,
    /// Read the current value of one policy of a thread.
    GetPolicy { thread: u32, flavor: PolicyFlavor },
    /// Set one policy of a thread.
    SetPolicy { thread: u32, policy: Policy },
    /// Set the time constraints of a thread to a budget given in
    /// microseconds, not preemptible.
    SetTimeBudget { thread: u32, budget: RealtimeBudget },
}

/// The answer to a request.
#[derive(Clone, Copy, Debug, PartialEq, Eq, Structural)]
pub enum Reply {
    /// To `CurrentThread`.
    Thread(u32),
    /// To `GetPolicy`: what the kernel returned, and the policy where it succeeded.
    Policy { status: i32, policy: Policy },
    /// To `SetPolicy` and `SetTimeBudget`: what the kernel returned.
    PolicySet { status: i32 },
}

/// The step at which a promotion stands.
#[derive(Clone, Copy, Debug, PartialEq, Eq, Structural)]
pub enum PromotionPhase {
    NamingThread,
    ReadingTimeShare,
    ReadingPrecedence,
    ReadingTimeConstraint,
    SettingTimeShare,
    SettingPrecedence,
    SettingTimeConstraint,
}

/// A promotion under way: the step at which it stands, what has been
/// recorded of the thread so far, and the budget that it is to get.
#[derive(Clone, Copy, Debug, PartialEq, Eq, Structural)]
pub struct Promotion {
    pub phase: PromotionPhase,
    pub recorded: PreviousPolicies,
    pub budget: RealtimeBudget,
}

/// Where a promotion stands after an answer.
#[derive(Debug)]
pub enum Progress {
    /// The request is to be carried out and its answer handed to `step`.
    Pending(Promotion, Request),
    /// The promotion has ended.
    Finished(Result<RtPriorityHandle, AudioThreadPriorityError>),
}

/// The request that is out in a given state.
pub open spec fn request_of(state: Promotion) -> Request {
    let thread = state.recorded.tid;
    match state.phase {
        PromotionPhase::NamingThread => Request::CurrentThread,
        PromotionPhase::ReadingTimeShare => Request::GetPolicy {
            thread,
            flavor: PolicyFlavor::Extended,
        },
        PromotionPhase::ReadingPrecedence => Request::GetPolicy {
            thread,
            flavor: PolicyFlavor::Precedence,
        },
        PromotionPhase::ReadingTimeConstraint => Request::GetPolicy {
            thread,
            flavor: PolicyFlavor::TimeConstraint,
        },
        PromotionPhase::SettingTimeShare => Request::SetPolicy {
            thread,
            policy: Policy::Extended(state.recorded.time_share),
        },
        PromotionPhase::SettingPrecedence => Request::SetPolicy {
            thread,
            policy: Policy::Precedence(PrecedencePolicy { importance: REALTIME_IMPORTANCE }),
        },
        PromotionPhase::SettingTimeConstraint => Request::SetTimeBudget {
            thread,
            budget: state.budget,
        },
    }
}

/// A promotion that goes on in `state`.
pub open spec fn pending(state: Promotion) -> Progress {
    Progress::Pending(state, request_of(state))
}

/// Where a promotion in `state` stands after `reply`. A policy is recorded
/// when the kernel returned success and the policy is of the flavour asked
/// for; any other answer to a reading ends the promotion with `QueryError`.
/// Any answer to a setting but success ends it with `PromotionDenied`.
pub open spec fn next(state: Promotion, reply: Reply) -> Progress {
    let recorded = state.recorded;
    let budget = state.budget;
    match state.phase {
        PromotionPhase::NamingThread => match reply {
            Reply::Thread(tid) => pending(
                Promotion {
                    phase: PromotionPhase::ReadingTimeShare,
                    recorded: PreviousPolicies { tid, ..recorded },
                    budget,
                },
            ),
            _ => Progress::Finished(Err(AudioThreadPriorityError::QueryError)),
        },
        PromotionPhase::ReadingTimeShare => match reply {
            Reply::Policy { status, policy: Policy::Extended(read) } if status == KERN_SUCCESS
                => pending(
                Promotion {
                    phase: PromotionPhase::ReadingPrecedence,
                    recorded: PreviousPolicies { time_share: read, ..recorded },
                    budget,
                },
            ),
            _ => Progress::Finished(Err(AudioThreadPriorityError::QueryError)),
        },
        PromotionPhase::ReadingPrecedence => match reply {
            Reply::Policy { status, policy: Policy::Precedence(read) } if status == KERN_SUCCESS
                => pending(
                Promotion {
                    phase: PromotionPhase::ReadingTimeConstraint,
                    recorded: PreviousPolicies { precedence: read, ..recorded },
                    budget,
                },
            ),
            _ => Progress::Finished(Err(AudioThreadPriorityError::QueryError)),
        },
        PromotionPhase::ReadingTimeConstraint => match reply {
            Reply::Policy { status, policy: Policy::TimeConstraint(read) } if status
                == KERN_SUCCESS => pending(
                Promotion {
                    phase: PromotionPhase::SettingTimeShare,
                    recorded: PreviousPolicies { time_constraint: read, ..recorded },
                    budget,
                },
            ),
            _ => Progress::Finished(Err(AudioThreadPriorityError::QueryError)),
        },
        PromotionPhase::SettingTimeShare => match reply {
            Reply::PolicySet { status } if status == KERN_SUCCESS => pending(
                Promotion { phase: PromotionPhase::SettingPrecedence, recorded, budget },
            ),
            _ => Progress::Finished(Err(AudioThreadPriorityError::PromotionDenied)),
        },
        PromotionPhase::SettingPrecedence => match reply {
            Reply::PolicySet { status } if status == KERN_SUCCESS => pending(
                Promotion { phase: PromotionPhase::SettingTimeConstraint, recorded, budget },
            ),
            _ => Progress::Finished(Err(AudioThreadPriorityError::PromotionDenied)),
        },
        PromotionPhase::SettingTimeConstraint => match reply {
            Reply::PolicySet { status } if status == KERN_SUCCESS => Progress::Finished(
                Ok(handle_for(recorded)),
            ),
            _ => Progress::Finished(Err(AudioThreadPriorityError::PromotionDenied)),
        },
    }
}

/// Whether an answer says that a policy was set.
fn was_set(reply: Reply) -> (set: bool)
    ensures
        set == (reply matches Reply::PolicySet { status } && status == KERN_SUCCESS),
{
    match reply {
        Reply::PolicySet { status } => status == KERN_SUCCESS,
        _ => false,
    }
}

impl Promotion {
    /// The request that is out in this state.
    pub fn request(&self) -> (request: Request)
        ensures
            request == request_of(*self),
    {
        let thread = self.recorded.tid;
        match self.phase {
            PromotionPhase::NamingThread => Request::CurrentThread,
            PromotionPhase::ReadingTimeShare => Request::GetPolicy {
                thread,
                flavor: PolicyFlavor::Extended,
            },
            PromotionPhase::ReadingPrecedence => Request::GetPolicy {
                thread,
                flavor: PolicyFlavor::Precedence,
            },
            PromotionPhase::ReadingTimeConstraint => Request::GetPolicy {
                thread,
                flavor: PolicyFlavor::TimeConstraint,
            },
            PromotionPhase::SettingTimeShare => Request::SetPolicy {
                thread,
                policy: Policy::Extended(self.recorded.time_share),
            },
            PromotionPhase::SettingPrecedence => Request::SetPolicy {
                thread,
                policy: Policy::Precedence(PrecedencePolicy { importance: REALTIME_IMPORTANCE }),
            },
            PromotionPhase::SettingTimeConstraint => Request::SetTimeBudget {
                thread,
                budget: self.budget,
            },
        }
    }

    /// Goes on at `phase` with `recorded`.
    fn proceed(self, phase: PromotionPhase, recorded: PreviousPolicies) -> (progress: Progress)
        ensures
            progress == pending(Promotion { phase, recorded, budget: self.budget }),
    {
        let state = Promotion { phase, recorded, budget: self.budget };
        let request = state.request();
        Progress::Pending(state, request)
    }

    /// Takes the answer to the request that is out and says what follows:
    /// the next request, or the end of the promotion.
    pub fn step(self, reply: Reply) -> (progress: Progress)
        ensures
            progress == next(self, reply),
            progress matches Progress::Finished(Ok(handle)) ==> self.phase
                == PromotionPhase::SettingTimeConstraint && handle@ == self.recorded,
    {
        let mut recorded = self.recorded;
        match self.phase {
            PromotionPhase::NamingThread => match reply {
                Reply::Thread(tid) => {
                    recorded.tid = tid;
                    self.proceed(PromotionPhase::ReadingTimeShare, recorded)
                },
                _ => Progress::Finished(Err(AudioThreadPriorityError::QueryError)),
            },
            PromotionPhase::ReadingTimeShare => match reply {
                Reply::Policy { status, policy: Policy::Extended(read) } => {
                    if status == KERN_SUCCESS {
                        recorded.time_share = read;
                        self.proceed(PromotionPhase::ReadingPrecedence, recorded)
                    } else {
                        Progress::Finished(Err(AudioThreadPriorityError::QueryError))
                    }
                },
                _ => Progress::Finished(Err(AudioThreadPriorityError::QueryError)),
            },
            PromotionPhase::ReadingPrecedence => match reply {
                Reply::Policy { status, policy: Policy::Precedence(read) } => {
                    if status == KERN_SUCCESS {
                        recorded.precedence = read;
                        self.proceed(PromotionPhase::ReadingTimeConstraint, recorded)
                    } else {
                        Progress::Finished(Err(AudioThreadPriorityError::QueryError))
                    }
                },
                _ => Progress::Finished(Err(AudioThreadPriorityError::QueryError)),
            },
            PromotionPhase::ReadingTimeConstraint => match reply {
                Reply::Policy { status, policy: Policy::TimeConstraint(read) } => {
                    if status == KERN_SUCCESS {
                        recorded.time_constraint = read;
                        self.proceed(PromotionPhase::SettingTimeShare, recorded)
                    } else {
                        Progress::Finished(Err(AudioThreadPriorityError::QueryError))
                    }
                },
                _ => Progress::Finished(Err(AudioThreadPriorityError::QueryError)),
            },
            PromotionPhase::SettingTimeShare => {
                if was_set(reply) {
                    self.proceed(PromotionPhase::SettingPrecedence, recorded)
                } else {
                    Progress::Finished(Err(AudioThreadPriorityError::PromotionDenied))
                }
            },
            PromotionPhase::SettingPrecedence => {
                if was_set(reply) {
                    self.proceed(PromotionPhase::SettingTimeConstraint, recorded)
                } else {
                    Progress::Finished(Err(AudioThreadPriorityError::PromotionDenied))
                }
            },
            PromotionPhase::SettingTimeConstraint => {
                if was_set(reply) {
                    Progress::Finished(Ok(RtPriorityHandle::of(recorded)))
                } else {
                    Progress::Finished(Err(AudioThreadPriorityError::PromotionDenied))
                }
            },
        }
    }
}

/// Begins the promotion of the calling thread, whose callback renders
/// `audio_buffer_frames` frames at `audio_samplerate_hz` frames a second.
pub fn promote_current_thread_to_real_time(audio_buffer_frames: u32, audio_samplerate_hz: u32) -> (progress:
    Progress)
    requires
        audio_samplerate_hz > 0,
    ensures
        progress == pending(
            Promotion {
                phase: PromotionPhase::NamingThread,
                recorded: blank(),
                budget: budget_of(audio_buffer_frames, audio_samplerate_hz),
            },
        ),
{
    let state = Promotion {
        phase: PromotionPhase::NamingThread,
        recorded: RtPriorityHandle::new().recorded(),
        budget: compute(audio_buffer_frames, audio_samplerate_hz),
    };
    let request = state.request();
    Progress::Pending(state, request)
}

/// The step at which a demotion stands: the policy that is being put back.
#[derive(Clone, Copy, Debug, PartialEq, Eq, Structural)]
pub enum DemotionPhase {
    TimeShare,
    Precedence,
    TimeConstraint,
}

/// A demotion under way: the policy that is being put back, and what the
/// handle that was given up recorded.
#[derive(Clone, Copy, Debug, PartialEq, Eq, Structural)]
pub struct Demotion {
    pub phase: DemotionPhase,
    pub recorded: PreviousPolicies,
}

/// Where a demotion stands after an answer.
#[derive(Clone, Copy, Debug, PartialEq, Eq)]
pub enum DemotionProgress {
    /// The request is to be carried out and its answer handed to `step`.
    Pending(Demotion, Request),
    /// The demotion has ended.
    Finished(Result<(), AudioThreadPriorityError>),
}

/// The policy that a demotion puts back at a given step.
pub open spec fn restored_policy(state: Demotion) -> Policy {
    match state.phase {
        DemotionPhase::TimeShare => Policy::Extended(state.recorded.time_share),
        DemotionPhase::Precedence => Policy::Precedence(state.recorded.precedence),
        DemotionPhase::TimeConstraint => Policy::TimeConstraint(state.recorded.time_constraint),
    }
}

/// A demotion that goes on in `state`.
pub open spec fn restoring(state: Demotion) -> DemotionProgress {
    DemotionProgress::Pending(
        state,
        Request::SetPolicy { thread: state.recorded.tid, policy: restored_policy(state) },
    )
}

/// Where a demotion in `state` stands after `reply`: the three policies
/// are put back one after the other, and the first that the kernel does not
/// set ends the demotion with `RestoreError`.
pub open spec fn next_restore(state: Demotion, reply: Reply) -> DemotionProgress {
    if reply matches Reply::PolicySet { status } && status == KERN_SUCCESS {
        match state.phase {
            DemotionPhase::TimeShare => restoring(
                Demotion { phase: DemotionPhase::Precedence, recorded: state.recorded },
            ),
            DemotionPhase::Precedence => restoring(
                Demotion { phase: DemotionPhase::TimeConstraint, recorded: state.recorded },
            ),
            DemotionPhase::TimeConstraint => DemotionProgress::Finished(Ok(())),
        }
    } else {
        DemotionProgress::Finished(Err(AudioThreadPriorityError::RestoreError))
    }
}

impl Demotion {
    /// The request that is out in this state.
    pub fn request(&self) -> (request: Request)
        ensures
            request == (Request::SetPolicy {
                thread: self.recorded.tid,
                policy: restored_policy(*self),
            }),
    {
        let policy = match self.phase {
            DemotionPhase::TimeShare => Policy::Extended(self.recorded.time_share),
            DemotionPhase::Precedence => Policy::Precedence(self.recorded.precedence),
            DemotionPhase::TimeConstraint => Policy::TimeConstraint(self.recorded.time_constraint),
        };
        Request::SetPolicy { thread: self.recorded.tid, policy }
    }

    /// Goes on at `phase`.
    fn proceed(self, phase: DemotionPhase) -> (progress: DemotionProgress)
        ensures
            progress == restoring(Demotion { phase, recorded: self.recorded }),
    {
        let state = Demotion { phase, recorded: self.recorded };
        let request = state.request();
        DemotionProgress::Pending(state, request)
    }

    /// Takes the answer to the request that is out and says what follows.
    pub fn step(self, reply: Reply) -> (progress: DemotionProgress)
        ensures
            progress == next_restore(self, reply),
    {
        if was_set(reply) {
            match self.phase {
                DemotionPhase::TimeShare => self.proceed(DemotionPhase::Precedence),
                DemotionPhase::Precedence => self.proceed(DemotionPhase::TimeConstraint),
                DemotionPhase::TimeConstraint => DemotionProgress::Finished(Ok(())),
            }
        } else {
            DemotionProgress::Finished(Err(AudioThreadPriorityError::RestoreError))
        }
    }
}

/// Gives up a handle and begins the demotion of the thread that it names.
pub fn demote_current_thread_from_real_time(rt_priority_handle: RtPriorityHandle) -> (progress:
    DemotionProgress)
    ensures
        progress == restoring(
            Demotion { phase: DemotionPhase::TimeShare, recorded: rt_priority_handle@ },
        ),
{
    let state = Demotion {
        phase: DemotionPhase::TimeShare,
        recorded: rt_priority_handle.recorded(),
    };
    let request = state.request();
    DemotionProgress::Pending(state, request)
}

/// A promotion in which the kernel does all that it is asked for ends, after
/// seven requests, with a handle that holds the thread and the three
/// policies as they were read.
pub proof fn lemma_promotion_records_policies(
    start: Promotion,
    tid: u32,
    time_share: ExtendedPolicy,
    precedence: PrecedencePolicy,
    time_constraint: TimeConstraintPolicy,
)
    requires
        start.phase == PromotionPhase::NamingThread,
    ensures
        ({
            let set = Reply::PolicySet { status: KERN_SUCCESS };
            let first = next(start, Reply::Thread(tid));
            let second = next(
                first->Pending_0,
                Reply::Policy { status: KERN_SUCCESS, policy: Policy::Extended(time_share) },
            );
            let third = next(
                second->Pending_0,
                Reply::Policy { status: KERN_SUCCESS, policy: Policy::Precedence(precedence) },
            );
            let fourth = next(
                third->Pending_0,
                Reply::Policy {
                    status: KERN_SUCCESS,
                    policy: Policy::TimeConstraint(time_constraint),
                },
            );
            let fifth = next(fourth->Pending_0, set);
            let sixth = next(fifth->Pending_0, set);
            let last = next(sixth->Pending_0, set);
            &&& first is Pending && second is Pending && third is Pending
            &&& fourth is Pending && fifth is Pending && sixth is Pending
            &&& fifth->Pending_1 == (Request::SetPolicy {
                thread: tid,
                policy: Policy::Precedence(PrecedencePolicy { importance: REALTIME_IMPORTANCE }),
            })
            &&& sixth->Pending_1 == (Request::SetTimeBudget { thread: tid, budget: start.budget })
            &&& last == Progress::Finished(
                Ok(handle_for(PreviousPolicies { tid, time_share, precedence, time_constraint })),
            )
            &&& last->Finished_0->Ok_0@ == (PreviousPolicies {
                tid,
                time_share,
                precedence,
                time_constraint,
            })
        }),
{
    lemma_handle_view(PreviousPolicies { tid, time_share, precedence, time_constraint });
}

/// A demotion in which the kernel does all that it is asked for sets the
/// three policies that the handle holds, on the thread that it names, and
/// ends well after the third.
pub proof fn lemma_demotion_restores_policies(handle: RtPriorityHandle)
    ensures
        ({
            let set = Reply::PolicySet { status: KERN_SUCCESS };
            let first = restoring(
                Demotion { phase: DemotionPhase::TimeShare, recorded: handle@ },
            );
            let second = next_restore(first->Pending_0, set);
            let third = next_restore(second->Pending_0, set);
            let last = next_restore(third->Pending_0, set);
            &&& first->Pending_1 == (Request::SetPolicy {
                thread: handle@.tid,
                policy: Policy::Extended(handle@.time_share),
            })
            &&& second is Pending && second->Pending_1 == (Request::SetPolicy {
                thread: handle@.tid,
                policy: Policy::Precedence(handle@.precedence),
            })
            &&& third is Pending && third->Pending_1 == (Request::SetPolicy {
                thread: handle@.tid,
                policy: Policy::TimeConstraint(handle@.time_constraint),
            })
            &&& last == DemotionProgress::Finished(Ok(()))
        }),
{
}

} // verus!
