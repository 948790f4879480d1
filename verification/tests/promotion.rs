use audio_thread_priority::error::{AudioThreadPriorityError, LimitAccess};
use audio_thread_priority::rt_linux::demotion::{restore_outcome, SchedulingRestore};
use audio_thread_priority::rt_linux::negotiation::{
    Negotiation, Progress, PromotionReply, PropertyReply, Reply, Request, ResourceLimit,
    ThreadReading,
};
use audio_thread_priority::rt_linux::service::{
    clamp_priority, clamp_runtime, reply_to_error, PropertyValue, ServiceProperty,
    BUS_ERROR_DISCONNECTED, BUS_ERROR_NO_REPLY, BUS_ERROR_NO_SERVER, BUS_ERROR_TIMED_OUT,
    BUS_ERROR_TIMEOUT, RTKIT_DESTINATION, RTKIT_INTERFACE, RTKIT_METHOD, RTKIT_PATH,
    RT_PRIO_DEFAULT, SERVICE_TIMEOUT_MS,
};
use audio_thread_priority::rt_linux::{
    demote_current_thread_from_real_time_internal, demote_thread_from_real_time_internal,
    get_current_thread_info_internal, item_as_i64, make_realtime,
    promote_current_thread_to_real_time_internal, promote_thread_to_real_time_internal,
    rtkit_set_realtime, RtPriorityHandleInternal, RtPriorityThreadInfoInternal,
};

/// A stand-in for the operating system and the elevation service.
struct Host {
    thread: ThreadReading,
    bus_reachable: bool,
    max_priority: PropertyReply,
    max_runtime: PropertyReply,
    limit: ResourceLimit,
    limit_readable: bool,
    limit_writable: bool,
    verdict: PromotionReply,
    realtime_policy: i32,
    log: Vec<Request>,
}

const SCHED_OTHER: i32 = 0;
const SCHED_RR: i32 = 2;

fn host() -> Host {
    Host {
        thread: ThreadReading {
            thread_id: 4711,
            pthread_id: 0x7f12_3456_7000,
            status: 0,
            policy: SCHED_OTHER,
            priority: 0,
        },
        bus_reachable: true,
        max_priority: PropertyReply::Value(PropertyValue::Int32(20)),
        max_runtime: PropertyReply::Value(PropertyValue::Int64(200_000)),
        limit: ResourceLimit { soft: u64::MAX, hard: u64::MAX },
        limit_readable: true,
        limit_writable: true,
        verdict: PromotionReply::Granted,
        realtime_policy: SCHED_RR,
        log: Vec::new(),
    }
}

impl Host {
    fn answer(&mut self, request: Request) -> Reply {
        self.log.push(request);
        match request {
            Request::QueryThread => Reply::Thread(self.thread),
            Request::Connect => Reply::Connected(self.bus_reachable),
            Request::ReadProperty { property, timeout_ms } => {
                assert_eq!(timeout_ms, 10_000);
                Reply::Property(match property {
                    ServiceProperty::MaxRealtimePriority => self.max_priority,
                    ServiceProperty::RTTimeUSecMax => self.max_runtime,
                })
            }
            Request::ReadLimit => Reply::Limit {
                status: if self.limit_readable { 0 } else { -1 },
                limit: self.limit,
            },
            Request::WriteLimit(limit) => {
                if self.limit_writable {
                    self.limit = limit;
                    Reply::LimitWritten { status: 0 }
                } else {
                    Reply::LimitWritten { status: -1 }
                }
            }
            Request::MakeThreadRealtime { thread, priority, timeout_ms } => {
                assert_eq!(timeout_ms, 10_000);
                if self.verdict == PromotionReply::Granted
                    && thread == self.thread.thread_id as u64
                {
                    self.thread.policy = self.realtime_policy;
                    self.thread.priority = priority as i32;
                }
                Reply::Promotion(self.verdict)
            }
        }
    }

    fn run(&mut self, start: Progress) -> Result<RtPriorityHandleInternal, AudioThreadPriorityError> {
        let mut progress = start;
        let mut steps = 0;
        loop {
            match progress {
                Progress::Finished(outcome) => return outcome,
                Progress::Pending(state, request) => {
                    assert_eq!(request, state.request());
                    steps += 1;
                    assert!(steps <= 8);
                    let reply = self.answer(request);
                    progress = state.step(reply);
                }
            }
        }
    }

    fn promote(
        &mut self,
        frames: u32,
        rate: u32,
    ) -> Result<RtPriorityHandleInternal, AudioThreadPriorityError> {
        self.run(promote_current_thread_to_real_time_internal(frames, rate))
    }

    fn restore(&mut self, restore: SchedulingRestore) -> i32 {
        if restore.pthread_id == self.thread.pthread_id {
            self.thread.policy = restore.policy;
            self.thread.priority = restore.priority;
            0
        } else {
            3
        }
    }
}

fn read(property: ServiceProperty) -> Request {
    Request::ReadProperty { property, timeout_ms: 10_000 }
}

#[test]
fn it_works() {
    let mut host = host();
    let rt_prio_handle = host.promote(512, 44100).unwrap();
    let restore = demote_current_thread_from_real_time_internal(
        rt_prio_handle,
        host.thread.pthread_id,
    )
    .unwrap();
    let status = host.restore(restore);
    restore_outcome(status).unwrap();
}

#[test]
fn promotion_makes_its_requests_in_order() {
    let mut host = host();
    let before = host.thread;
    let handle = host.promote(512, 44100).unwrap();
    assert_eq!(
        host.log,
        vec![
            Request::QueryThread,
            Request::Connect,
            read(ServiceProperty::MaxRealtimePriority),
            read(ServiceProperty::RTTimeUSecMax),
            Request::ReadLimit,
            Request::WriteLimit(ResourceLimit { soft: 11609, hard: 11609 }),
            Request::MakeThreadRealtime { thread: 4711, priority: 10, timeout_ms: 10_000 },
        ]
    );
    assert_eq!(host.limit, ResourceLimit { soft: 11609, hard: 11609 });
    assert_eq!(host.thread.policy, SCHED_RR);
    assert_eq!(host.thread.priority, 10);
    let info = handle.thread_info();
    assert_eq!(info.thread_id, before.thread_id);
    assert_eq!(info.pthread_id, before.pthread_id);
    assert_eq!(info.policy, before.policy);
    assert_eq!(info.priority, before.priority);
}

#[test]
fn promote_then_demote_restores_policy_and_priority() {
    let mut host = host();
    host.thread.policy = 3;
    host.thread.priority = 0;
    let before = host.thread;
    let handle = host.promote(128, 48000).unwrap();
    assert_ne!(host.thread, before);
    let restore =
        demote_current_thread_from_real_time_internal(handle, host.thread.pthread_id).unwrap();
    assert_eq!(
        restore,
        SchedulingRestore { pthread_id: before.pthread_id, policy: 3, priority: 0 }
    );
    assert_eq!(restore_outcome(host.restore(restore)), Ok(()));
    assert_eq!(host.thread, before);
}

#[test]
fn priority_is_clamped_to_the_ceiling_of_the_service() {
    let mut host = host();
    host.max_priority = PropertyReply::Value(PropertyValue::Int32(5));
    host.promote(512, 44100).unwrap();
    assert_eq!(
        host.log[6],
        Request::MakeThreadRealtime { thread: 4711, priority: 5, timeout_ms: 10_000 }
    );
    assert_eq!(host.thread.priority, 5);
}

#[test]
fn priority_ceiling_above_the_default_is_not_used() {
    let mut host = host();
    host.max_priority = PropertyReply::Value(PropertyValue::Int64(99));
    host.promote(512, 44100).unwrap();
    assert_eq!(
        host.log[6],
        Request::MakeThreadRealtime { thread: 4711, priority: 10, timeout_ms: 10_000 }
    );
}

#[test]
fn runtime_is_clamped_to_the_ceiling_of_the_service() {
    let mut host = host();
    host.max_runtime = PropertyReply::Value(PropertyValue::Int64(20_000));
    host.promote(0, 44100).unwrap();
    assert_eq!(host.log[5], Request::WriteLimit(ResourceLimit { soft: 20_000, hard: 20_000 }));
    assert_eq!(host.limit, ResourceLimit { soft: 20_000, hard: 20_000 });

    let mut host = self::host();
    host.promote(0, 44100).unwrap();
    assert_eq!(host.log[5], Request::WriteLimit(ResourceLimit { soft: 50_000, hard: 50_000 }));
}

#[test]
fn denial_restores_the_resource_limit() {
    let mut host = host();
    host.limit = ResourceLimit { soft: 123_456, hard: 7_890_123 };
    host.verdict = PromotionReply::Denied;
    let before_limit = host.limit;
    let before_thread = host.thread;
    let outcome = host.promote(512, 44100);
    assert_eq!(outcome.unwrap_err(), AudioThreadPriorityError::PromotionDenied);
    assert_eq!(host.limit.soft, before_limit.soft);
    assert_eq!(host.limit.hard, before_limit.hard);
    assert_eq!(host.thread, before_thread);
    assert_eq!(host.log.len(), 8);
    assert_eq!(host.log[5], Request::WriteLimit(ResourceLimit { soft: 11609, hard: 11609 }));
    assert_eq!(host.log[7], Request::WriteLimit(before_limit));
}

#[test]
fn timeout_restores_the_resource_limit() {
    let mut host = host();
    host.limit = ResourceLimit { soft: 1, hard: 2 };
    host.verdict = PromotionReply::TimedOut;
    let outcome = host.promote(512, 44100);
    assert_eq!(outcome.unwrap_err(), AudioThreadPriorityError::ServiceTimeout);
    assert_eq!(host.limit, ResourceLimit { soft: 1, hard: 2 });
    assert_eq!(host.log.len(), 8);
}

#[test]
fn failed_rollback_keeps_the_first_error() {
    let state = Negotiation::Unwinding {
        saved: ResourceLimit { soft: 1, hard: 2 },
        error: AudioThreadPriorityError::PromotionDenied,
    };
    assert_eq!(state.request(), Request::WriteLimit(ResourceLimit { soft: 1, hard: 2 }));
    match state.step(Reply::LimitWritten { status: -1 }) {
        Progress::Finished(Err(AudioThreadPriorityError::PromotionDenied)) => {}
        other => panic!("{:?}", other),
    }
    match state.step(Reply::LimitWritten { status: 0 }) {
        Progress::Finished(Err(AudioThreadPriorityError::PromotionDenied)) => {}
        other => panic!("{:?}", other),
    }
}

#[test]
fn unreadable_thread_is_a_query_error() {
    let mut host = host();
    host.thread.status = 22;
    let limit = host.limit;
    assert_eq!(host.promote(512, 44100).unwrap_err(), AudioThreadPriorityError::QueryError);
    assert_eq!(host.log, vec![Request::QueryThread]);
    assert_eq!(host.limit, limit);

    let mut host = self::host();
    host.thread.status = -1;
    assert_eq!(host.promote(512, 44100).unwrap_err(), AudioThreadPriorityError::QueryError);
}

#[test]
fn unreachable_bus_is_service_unavailable() {
    let mut host = host();
    host.bus_reachable = false;
    assert_eq!(
        host.promote(512, 44100).unwrap_err(),
        AudioThreadPriorityError::ServiceUnavailable
    );
    assert_eq!(host.log, vec![Request::QueryThread, Request::Connect]);
}

#[test]
fn unreadable_property_is_property_unavailable() {
    let mut host = host();
    host.max_priority = PropertyReply::Unavailable;
    assert_eq!(
        host.promote(512, 44100).unwrap_err(),
        AudioThreadPriorityError::PropertyUnavailable
    );
    assert_eq!(host.log.len(), 3);

    let mut host = self::host();
    host.max_runtime = PropertyReply::Unavailable;
    assert_eq!(
        host.promote(512, 44100).unwrap_err(),
        AudioThreadPriorityError::PropertyUnavailable
    );
    assert_eq!(host.log.len(), 4);
}

#[test]
fn property_of_another_type_is_a_type_mismatch() {
    let mut host = host();
    host.max_priority = PropertyReply::Value(PropertyValue::Other);
    assert_eq!(host.promote(512, 44100).unwrap_err(), AudioThreadPriorityError::TypeMismatch);
    assert_eq!(host.log.len(), 3);

    let mut host = self::host();
    host.max_runtime = PropertyReply::Value(PropertyValue::Other);
    assert_eq!(host.promote(512, 44100).unwrap_err(), AudioThreadPriorityError::TypeMismatch);
    assert_eq!(host.log.len(), 4);
}

#[test]
fn unreadable_limit_is_a_resource_limit_error() {
    let mut host = host();
    host.limit_readable = false;
    let limit = host.limit;
    assert_eq!(
        host.promote(512, 44100).unwrap_err(),
        AudioThreadPriorityError::ResourceLimitError(LimitAccess::Read)
    );
    assert_eq!(host.log.len(), 5);
    assert_eq!(host.limit, limit);
}

#[test]
fn unwritable_limit_is_a_resource_limit_error_and_the_service_is_not_asked() {
    let mut host = host();
    host.limit_writable = false;
    let limit = host.limit;
    assert_eq!(
        host.promote(512, 44100).unwrap_err(),
        AudioThreadPriorityError::ResourceLimitError(LimitAccess::Write)
    );
    assert_eq!(host.log.len(), 6);
    assert_eq!(host.limit, limit);
    assert!(host
        .log
        .iter()
        .all(|r| !matches!(r, Request::MakeThreadRealtime { .. })));
}

#[test]
fn an_answer_of_another_kind_fails_the_step() {
    let info = RtPriorityThreadInfoInternal { thread_id: 1, pthread_id: 2, policy: 0, priority: 0 };
    let saved = ResourceLimit { soft: 5, hard: 6 };
    let stray = Reply::Connected(true);
    let cases = [
        (
            Negotiation::AwaitingThread { max_slice_us: 10, priority: 10 },
            AudioThreadPriorityError::QueryError,
        ),
        (
            Negotiation::ReadingMaxPriority { thread_info: info, max_slice_us: 10, priority: 10 },
            AudioThreadPriorityError::PropertyUnavailable,
        ),
        (
            Negotiation::ReadingMaxRuntime { thread_info: info, max_slice_us: 10, priority: 10 },
            AudioThreadPriorityError::PropertyUnavailable,
        ),
        (
            Negotiation::ReadingLimit { thread_info: info, runtime: 10, priority: 10 },
            AudioThreadPriorityError::ResourceLimitError(LimitAccess::Read),
        ),
        (
            Negotiation::RaisingLimit { thread_info: info, runtime: 10, priority: 10, saved },
            AudioThreadPriorityError::ResourceLimitError(LimitAccess::Write),
        ),
    ];
    for (state, expected) in cases {
        match state.step(stray) {
            Progress::Finished(Err(error)) => assert_eq!(error, expected),
            other => panic!("{:?}", other),
        }
    }
    let state = Negotiation::Connecting { thread_info: info, max_slice_us: 10, priority: 10 };
    match state.step(Reply::LimitWritten { status: 0 }) {
        Progress::Finished(Err(AudioThreadPriorityError::ServiceUnavailable)) => {}
        other => panic!("{:?}", other),
    }
    let state = Negotiation::Requesting { thread_info: info, priority: 10, saved };
    match state.step(stray) {
        Progress::Pending(
            Negotiation::Unwinding { saved: s, error: AudioThreadPriorityError::ServiceTimeout },
            Request::WriteLimit(l),
        ) => {
            assert_eq!(s, saved);
            assert_eq!(l, saved);
        }
        other => panic!("{:?}", other),
    }
}

#[test]
fn promotion_of_another_thread_skips_the_query() {
    let mut host = host();
    let info = RtPriorityThreadInfoInternal {
        thread_id: 99,
        pthread_id: 0xabc,
        policy: 1,
        priority: 7,
    };
    let before = host.thread;
    let handle = host.run(promote_thread_to_real_time_internal(info, 256, 48000)).unwrap();
    assert_eq!(host.log[0], Request::Connect);
    assert_eq!(host.log.len(), 6);
    assert_eq!(host.log[4], Request::WriteLimit(ResourceLimit { soft: 5333, hard: 5333 }));
    assert_eq!(
        host.log[5],
        Request::MakeThreadRealtime { thread: 99, priority: 10, timeout_ms: 10_000 }
    );
    assert_eq!(host.thread, before);
    let restore = demote_thread_from_real_time_internal(handle);
    assert_eq!(restore, SchedulingRestore { pthread_id: 0xabc, policy: 1, priority: 7 });
}

#[test]
fn make_realtime_starts_by_connecting() {
    let info = RtPriorityThreadInfoInternal { thread_id: 5, pthread_id: 6, policy: 0, priority: 0 };
    match make_realtime(info, 777, 3) {
        Progress::Pending(
            Negotiation::Connecting { thread_info, max_slice_us: 777, priority: 3 },
            Request::Connect,
        ) => assert!(thread_info == info),
        other => panic!("{:?}", other),
    }
    let mut host = host();
    host.run(make_realtime(info, 777, 3)).unwrap();
    assert_eq!(host.log[4], Request::WriteLimit(ResourceLimit { soft: 777, hard: 777 }));
    assert_eq!(
        host.log[5],
        Request::MakeThreadRealtime { thread: 5, priority: 3, timeout_ms: 10_000 }
    );
}

#[test]
fn negative_thread_id_is_sent_as_its_twos_complement() {
    let info =
        RtPriorityThreadInfoInternal { thread_id: -1, pthread_id: 6, policy: 0, priority: 0 };
    let state = Negotiation::Requesting {
        thread_info: info,
        priority: 4,
        saved: ResourceLimit { soft: 0, hard: 0 },
    };
    assert_eq!(
        state.request(),
        Request::MakeThreadRealtime { thread: u64::MAX, priority: 4, timeout_ms: 10_000 }
    );
}

#[test]
fn demotion_on_another_thread_is_refused() {
    let mut host = host();
    let handle = host.promote(512, 44100).unwrap();
    let elsewhere = host.thread.pthread_id + 1;
    assert_eq!(
        demote_current_thread_from_real_time_internal(handle, elsewhere),
        Err(AudioThreadPriorityError::ThreadIdentityMismatch)
    );
    assert_eq!(host.thread.policy, SCHED_RR);
}

#[test]
fn failed_restore_is_a_restore_error() {
    assert_eq!(restore_outcome(0), Ok(()));
    assert_eq!(restore_outcome(1), Err(AudioThreadPriorityError::RestoreError));
    assert_eq!(restore_outcome(22), Err(AudioThreadPriorityError::RestoreError));
    assert_eq!(restore_outcome(-1), Err(AudioThreadPriorityError::RestoreError));
}

#[test]
fn thread_info_from_a_reading() {
    let reading =
        ThreadReading { thread_id: 12, pthread_id: 34, status: 0, policy: 2, priority: 56 };
    let info = get_current_thread_info_internal(reading).unwrap();
    assert_eq!(info.thread_id, 12);
    assert_eq!(info.pthread_id, 34);
    assert_eq!(info.policy, 2);
    assert_eq!(info.priority, 56);
    for status in [1, 22, -1, i32::MIN, i32::MAX] {
        let failed = ThreadReading { status, ..reading };
        assert_eq!(
            get_current_thread_info_internal(failed).unwrap_err(),
            AudioThreadPriorityError::QueryError
        );
    }
}

#[test]
fn property_as_integer() {
    assert_eq!(item_as_i64(PropertyValue::Int32(-3)), Ok(-3));
    assert_eq!(item_as_i64(PropertyValue::Int32(i32::MAX)), Ok(2_147_483_647));
    assert_eq!(item_as_i64(PropertyValue::Int64(1 << 40)), Ok(1 << 40));
    assert_eq!(item_as_i64(PropertyValue::Other), Err(AudioThreadPriorityError::TypeMismatch));
}

#[test]
fn clamping_takes_the_smaller() {
    assert_eq!(clamp_priority(10, 5), 5);
    assert_eq!(clamp_priority(10, 10), 10);
    assert_eq!(clamp_priority(10, 11), 10);
    assert_eq!(clamp_priority(10, 99), 10);
    assert_eq!(clamp_priority(10, 0), 0);
    assert_eq!(clamp_priority(10, 4_294_967_295), 10);
    assert_eq!(clamp_priority(10, 4_294_967_296), 10);
    assert_eq!(clamp_priority(10, 4_294_967_301), 10);
    assert_eq!(clamp_priority(10, i64::MAX), 10);
    assert_eq!(clamp_priority(u32::MAX, 4_294_967_294), 4_294_967_294);
    assert_eq!(clamp_priority(u32::MAX, 4_294_967_296), u32::MAX);
    assert_eq!(clamp_priority(0, 7), 0);
    assert_eq!(clamp_runtime(11609, 200_000), 11609);
    assert_eq!(clamp_runtime(11609, 11609), 11609);
    assert_eq!(clamp_runtime(11609, 10_000), 10_000);
    assert_eq!(clamp_runtime(11609, 0), 0);
    assert_eq!(clamp_runtime(u64::MAX, i64::MAX), i64::MAX as u64);
    assert_eq!(clamp_runtime(1 << 62, i64::MAX), 1 << 62);
}

#[test]
fn a_negative_ceiling_allows_nothing() {
    assert_eq!(clamp_priority(10, -1), 0);
    assert_eq!(clamp_priority(10, -((1 << 32) - 7)), 0);
    assert_eq!(clamp_priority(10, i64::MIN), 0);
    assert_eq!(clamp_runtime(11609, -1), 0);
    assert_eq!(clamp_runtime(u64::MAX, i64::MIN), 0);

    let mut host = host();
    host.max_priority = PropertyReply::Value(PropertyValue::Int32(-1));
    host.max_runtime = PropertyReply::Value(PropertyValue::Int64(-5));
    host.promote(512, 44100).unwrap();
    assert_eq!(host.log[5], Request::WriteLimit(ResourceLimit { soft: 0, hard: 0 }));
    assert_eq!(
        host.log[6],
        Request::MakeThreadRealtime { thread: 4711, priority: 0, timeout_ms: 10_000 }
    );
}

#[test]
fn a_ceiling_beyond_32_bits_is_not_cut() {
    for ceiling in [4_294_967_296i64, 4_294_967_301, i64::MAX] {
        let mut host = host();
        host.max_priority = PropertyReply::Value(PropertyValue::Int64(ceiling));
        host.promote(512, 44100).unwrap();
        assert_eq!(
            host.log[6],
            Request::MakeThreadRealtime { thread: 4711, priority: 10, timeout_ms: 10_000 }
        );
    }
}

#[test]
fn bus_errors_that_mean_no_answer() {
    for name in [
        "org.freedesktop.DBus.Error.NoReply",
        "org.freedesktop.DBus.Error.Timeout",
        "org.freedesktop.DBus.Error.TimedOut",
        "org.freedesktop.DBus.Error.Disconnected",
        "org.freedesktop.DBus.Error.NoServer",
    ] {
        assert_eq!(reply_to_error(Some(name)), PromotionReply::TimedOut);
    }
    assert_eq!(BUS_ERROR_NO_REPLY, "org.freedesktop.DBus.Error.NoReply");
    assert_eq!(BUS_ERROR_TIMEOUT, "org.freedesktop.DBus.Error.Timeout");
    assert_eq!(BUS_ERROR_TIMED_OUT, "org.freedesktop.DBus.Error.TimedOut");
    assert_eq!(BUS_ERROR_DISCONNECTED, "org.freedesktop.DBus.Error.Disconnected");
    assert_eq!(BUS_ERROR_NO_SERVER, "org.freedesktop.DBus.Error.NoServer");
}

#[test]
fn other_bus_errors_are_refusals() {
    for name in [
        "org.freedesktop.DBus.Error.AccessDenied",
        "org.freedesktop.DBus.Error.Failed",
        "org.freedesktop.DBus.Error.ServiceUnknown",
        "org.freedesktop.DBus.Error.UnknownMethod",
        "org.freedesktop.DBus.Error.NoReply ",
        "org.freedesktop.DBus.Error.noreply",
        "org.freedesktop.DBus.Error.NoRepl",
        "NoReply",
        "",
    ] {
        assert_eq!(reply_to_error(Some(name)), PromotionReply::Denied);
    }
    assert_eq!(reply_to_error(None), PromotionReply::Denied);
}

#[test]
fn names_of_the_service() {
    assert_eq!(RT_PRIO_DEFAULT, 10);
    assert_eq!(SERVICE_TIMEOUT_MS, 10_000);
    assert_eq!(RTKIT_DESTINATION, "org.freedesktop.RealtimeKit1");
    assert_eq!(RTKIT_PATH, "/org/freedesktop/RealtimeKit1");
    assert_eq!(RTKIT_INTERFACE, "org.freedesktop.RealtimeKit1");
    assert_eq!(RTKIT_METHOD, "MakeThreadRealtime");
    assert_eq!(ServiceProperty::MaxRealtimePriority.name(), "MaxRealtimePriority");
    assert_eq!(ServiceProperty::RTTimeUSecMax.name(), "RTTimeUSecMax");
}

#[test]
fn nothing_is_undone_before_the_limit_is_raised() {
    let info = RtPriorityThreadInfoInternal { thread_id: 1, pthread_id: 2, policy: 0, priority: 0 };
    let early = [
        Negotiation::AwaitingThread { max_slice_us: 10, priority: 10 },
        Negotiation::Connecting { thread_info: info, max_slice_us: 10, priority: 10 },
        Negotiation::ReadingMaxPriority { thread_info: info, max_slice_us: 10, priority: 10 },
        Negotiation::ReadingMaxRuntime { thread_info: info, max_slice_us: 10, priority: 10 },
        Negotiation::ReadingLimit { thread_info: info, runtime: 10, priority: 10 },
    ];
    for state in early {
        assert_eq!(state.abandon(), None);
    }
}

#[test]
fn giving_up_puts_the_saved_limit_back() {
    let info = RtPriorityThreadInfoInternal { thread_id: 1, pthread_id: 2, policy: 0, priority: 0 };
    let saved = ResourceLimit { soft: 31, hard: 32 };
    let late = [
        Negotiation::RaisingLimit { thread_info: info, runtime: 10, priority: 10, saved },
        Negotiation::Requesting { thread_info: info, priority: 10, saved },
        Negotiation::Unwinding { saved, error: AudioThreadPriorityError::ServiceTimeout },
    ];
    for state in late {
        assert_eq!(state.abandon(), Some(Request::WriteLimit(saved)));
    }
}

#[test]
fn a_promotion_given_up_at_any_request_leaves_the_limit() {
    for verdict in [PromotionReply::Granted, PromotionReply::Denied, PromotionReply::TimedOut] {
        for stop in 1..=8 {
            let mut host = host();
            host.verdict = verdict;
            host.limit = ResourceLimit { soft: 900, hard: 1000 };
            let before = host.limit;
            let mut progress = promote_current_thread_to_real_time_internal(512, 44100);
            let mut made = 0;
            while let Progress::Pending(state, request) = progress {
                if made == stop {
                    if let Some(undo) = state.abandon() {
                        host.answer(undo);
                    }
                    assert_eq!(host.limit, before);
                    break;
                }
                made += 1;
                progress = state.step(host.answer(request));
            }
        }
    }
}

#[test]
fn the_call_for_promotion_waits_ten_seconds() {
    assert_eq!(
        rtkit_set_realtime(4711, 5),
        Request::MakeThreadRealtime { thread: 4711, priority: 5, timeout_ms: 10_000 }
    );
    assert_eq!(
        rtkit_set_realtime(u64::MAX, 0),
        Request::MakeThreadRealtime { thread: u64::MAX, priority: 0, timeout_ms: 10_000 }
    );
}
