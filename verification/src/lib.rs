//! Lifecycle, configuration and log routing for a single native media-library
//! instance embedded in a host application.
//!
//! The crate holds the decision logic only: which settings defaults and
//! metadata the host store must receive, how the persisted options resolve
//! into native initialization arguments, which log-callback variant belongs to
//! a configured level, where each native log record is forwarded, and when the
//! native handle may be handed out or must be released. The host shell
//! performs the actual storage, native and logging calls around it.

pub mod lifecycle;
pub mod router;
pub mod settings;
pub mod text;
