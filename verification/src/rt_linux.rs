//! Promotion through the RealtimeKit service of the system message bus.

pub mod demotion;
pub mod handle;
pub mod host;
pub mod negotiation;
pub mod service;
pub mod thread_info;

pub use demotion::{
    demote_current_thread_from_real_time_internal, demote_thread_from_real_time_internal,
};
pub use handle::RtPriorityHandleInternal;
pub use negotiation::{
    get_current_thread_info_internal, make_realtime, promote_current_thread_to_real_time_internal,
    promote_thread_to_real_time_internal, rtkit_set_realtime,
};
pub use service::item_as_i64;
pub use thread_info::RtPriorityThreadInfoInternal;
