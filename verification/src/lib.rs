//! Verified core of a typed service binding layer over an untyped, dynamic
//! module runtime.
//!
//! The runtime itself (its registry of published services, its filter
//! evaluation, its dispatch threads and its log transport) is reached through
//! raw handles and callbacks, which verified code cannot hold. This crate
//! therefore keeps every decision of the binding layer as a function on plain
//! values: builders validate and describe a request, the caller performs it
//! against the runtime, and the runtime's answer is handed back to a function
//! that decides what happens next.

pub mod errno;
pub mod log_level;
pub mod encoding;
pub mod properties;
pub mod bridge;
pub mod bundle_context;
pub mod registration;
pub mod use_builder;
pub mod tracker;
pub mod log_helper;
pub mod shell_api;

pub use crate::bundle_context::BundleContextImpl;
pub use crate::errno::Error;
pub use crate::errno::BUNDLE_EXCEPTION;
pub use crate::errno::CELIX_SUCCESS;
pub use crate::log_level::LogLevel;
pub use crate::log_helper::LogHelper;
pub use crate::properties::Properties;
pub use crate::registration::ServiceRegistration;
pub use crate::registration::ServiceRegistrationBuilder;
pub use crate::tracker::ServiceTracker;
pub use crate::tracker::ServiceTrackerBuilder;
pub use crate::use_builder::ServiceUseBuilder;
