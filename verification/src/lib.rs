//! Temporary real-time scheduling for audio callback threads.
//!
//! The crate holds the decisions of promoting a thread to a real-time
//! scheduling class and of returning it to its earlier state: the time budget
//! of a callback, the limits asked of the elevation service, the order of the
//! steps and what is undone when one of them fails. Talking to the operating
//! system is left to the caller, which carries out each request and hands the
//! answer back.

pub mod budget;
pub mod byte_order;
pub mod error;
pub mod rt_android;
pub mod rt_linux;
pub mod rt_mach;
pub mod rt_win;
