use crate::error::AudioThreadPriorityError;
use crate::rt_linux::negotiation::PromotionReply;
use vstd::prelude::*;

verus! {

/// The priority that is asked for where the service allows it.
pub const RT_PRIO_DEFAULT: u32 = 10;

/// The longest wait for an answer of the service, in milliseconds.
pub const SERVICE_TIMEOUT_MS: i32 = 10_000;

/// The name under which the service is found on the system bus.
pub const RTKIT_DESTINATION: &'static str = "org.freedesktop.RealtimeKit1";

/// The object of the service that takes the requests.
pub const RTKIT_PATH: &'static str = "/org/freedesktop/RealtimeKit1";

/// The interface that holds the limits and the method of promotion.
pub const RTKIT_INTERFACE: &'static str = "org.freedesktop.RealtimeKit1";

/// The method that makes a thread real-time.
pub const RTKIT_METHOD: &'static str = "MakeThreadRealtime";

/// A limit that the service publishes.
#[derive(Clone, Copy, Debug, PartialEq, Eq, Structural)]
pub enum ServiceProperty {
    /// The highest real-time priority the service grants.
    MaxRealtimePriority,
    /// The longest real-time runtime, in microseconds, the service accepts
    /// as the limit of a process that asks for promotion.
    RTTimeUSecMax,
}

impl ServiceProperty {
    /// The name of the property on the bus.
    pub open spec fn spec_name(self) -> &'static str {
        match self {
            ServiceProperty::MaxRealtimePriority => "MaxRealtimePriority",
            ServiceProperty::RTTimeUSecMax => "RTTimeUSecMax",
        }
    }

    /// The name of the property on the bus.
    pub fn name(&self) -> (name: &'static str)
        ensures
            name == self.spec_name(),
    {
        match self {
            ServiceProperty::MaxRealtimePriority => "MaxRealtimePriority",
            ServiceProperty::RTTimeUSecMax => "RTTimeUSecMax",
        }
    }
}

/// What a property of the service holds, as far as a limit can be read from it.
#[derive(Clone, Copy, Debug, PartialEq, Eq, Structural)]
pub enum PropertyValue {
    /// A signed integer of 32 bits.
    Int32(i32),
    /// A signed integer of 64 bits.
    Int64(i64),
    /// Anything that is no such integer.
    Other,
}

/// The integer that a property holds.
pub open spec fn integer_of(value: PropertyValue) -> Option<i64> {
    match value {
        PropertyValue::Int32(i) => Some(i as i64),
        PropertyValue::Int64(i) => Some(i),
        PropertyValue::Other => None,
    }
}

/// Reads a property as a 64-bit integer, and refuses one that is no integer.
pub fn item_as_i64(i: PropertyValue) -> (number: Result<i64, AudioThreadPriorityError>)
    ensures
        number == match integer_of(i) {
            Some(n) => Ok::<i64, AudioThreadPriorityError>(n),
            None => Err::<i64, AudioThreadPriorityError>(AudioThreadPriorityError::TypeMismatch),
        },
{
    match i {
        PropertyValue::Int32(i) => Ok(i as i64),
        PropertyValue::Int64(i) => Ok(i),
        PropertyValue::Other => Err(AudioThreadPriorityError::TypeMismatch),
    }
}

/// The most that may be asked for under a ceiling that the service
/// reports: the reported number itself, and nothing where the service
/// reports a negative number.
pub open spec fn ceiling_of(reported: i64) -> int {
    if reported < 0 {
        0
    } else {
        reported as int
    }
}

/// The smaller of two numbers.
pub open spec fn smaller(a: int, b: int) -> int {
    if a <= b {
        a
    } else {
        b
    }
}

/// The priority to ask for: the wanted one, or the ceiling of the service
/// if that is lower. Under a negative ceiling it is zero, the least that can
/// be asked for.
pub fn clamp_priority(wanted: u32, reported: i64) -> (priority: u32)
    ensures
        priority == smaller(wanted as int, ceiling_of(reported)),
        reported >= 0 ==> priority == smaller(wanted as int, reported as int),
        reported < 0 ==> priority == 0,
{
    if reported < 0 {
        0
    } else if wanted as i64 <= reported {
        wanted
    } else {
        reported as u32
    }
}

/// The runtime limit to set: the budget, or the ceiling of the service if
/// that is lower. Under a negative ceiling it is zero.
pub fn clamp_runtime(budget_us: u64, reported: i64) -> (runtime: u64)
    ensures
        runtime == smaller(budget_us as int, ceiling_of(reported)),
        reported >= 0 ==> runtime == smaller(budget_us as int, reported as int),
        reported < 0 ==> runtime == 0,
{
    if reported < 0 {
        0
    } else if budget_us <= reported as u64 {
        budget_us
    } else {
        reported as u64
    }
}

/// The names of the errors of the message bus that say that no answer came:
/// none within the wait, or none because the connection broke or never stood.
pub const BUS_ERROR_NO_REPLY: &'static str = "org.freedesktop.DBus.Error.NoReply";

pub const BUS_ERROR_TIMEOUT: &'static str = "org.freedesktop.DBus.Error.Timeout";

pub const BUS_ERROR_TIMED_OUT: &'static str = "org.freedesktop.DBus.Error.TimedOut";

pub const BUS_ERROR_DISCONNECTED: &'static str = "org.freedesktop.DBus.Error.Disconnected";

pub const BUS_ERROR_NO_SERVER: &'static str = "org.freedesktop.DBus.Error.NoServer";

/// Whether an error of this name says that no answer came.
pub open spec fn is_unanswered(name: Seq<char>) -> bool {
    ||| name == BUS_ERROR_NO_REPLY@
    ||| name == BUS_ERROR_TIMEOUT@
    ||| name == BUS_ERROR_TIMED_OUT@
    ||| name == BUS_ERROR_DISCONNECTED@
    ||| name == BUS_ERROR_NO_SERVER@
}

/// How a request for promotion ended that the bus answered with an error
/// of the name `name`, or with one that has no name: the service did not
/// answer where the name is one of the five above, and refused otherwise.
pub open spec fn reply_of_error(name: Option<Seq<char>>) -> PromotionReply {
    match name {
        Some(name) if is_unanswered(name) => PromotionReply::TimedOut,
        _ => PromotionReply::Denied,
    }
}

/// Whether two strings are the same.
fn same(a: &str, b: &str) -> (equal: bool)
    ensures
        equal == (a@ == b@),
{
    let a = a.to_owned();
    let b = b.to_owned();
    a.eq(&b)
}

/// Tells a request for promotion that was not answered from one that was
/// refused, by the name of the error that the bus gave.
pub fn reply_to_error(name: Option<&str>) -> (reply: PromotionReply)
    ensures
        reply == reply_of_error(
            match name {
                Some(name) => Some(name@),
                None => None,
            },
        ),
{
    match name {
        Some(name) => {
            if same(name, BUS_ERROR_NO_REPLY) || same(name, BUS_ERROR_TIMEOUT) || same(
                name,
                BUS_ERROR_TIMED_OUT,
            ) || same(name, BUS_ERROR_DISCONNECTED) || same(name, BUS_ERROR_NO_SERVER) {
                PromotionReply::TimedOut
            } else {
                PromotionReply::Denied
            }
        },
        None => PromotionReply::Denied,
    }
}

} // verus!
