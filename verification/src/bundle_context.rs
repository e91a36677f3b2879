//! The context handle: one module's connection to the runtime.

use vstd::prelude::*;
use vstd::string::StringSliceAdditionalSpecFns;
use crate::bridge::Expected;
use crate::encoding::is_first_nul;
use crate::encoding::nul_free;
use crate::encoding::nul_position;
use crate::log_level::LogLevel;
use crate::registration::RegistrationBuilderView;
use crate::registration::ServiceRegistrationBuilder;
use crate::tracker::ServiceTrackerBuilder;
use crate::tracker::TrackerBuilderView;
use crate::use_builder::ServiceUseBuilder;
use crate::use_builder::UseBuilderView;

verus! {

/// The identifier of a handle that no longer stands for anything in the
/// registry.
pub const INACTIVE_ID: i64 = -1;

/// A non-owning reference from a dependent handle back to the context that
/// issued it. It names the connection and keeps nothing alive. Whether the
/// context is still there is found out when the reference is resolved, at
/// the time the dependent handle is released.
#[derive(Debug, Clone, Copy, PartialEq, Eq, Structural)]
pub struct ContextRef {
    pub connection: usize,
}

/// Request to take a published service out of the registry.
#[derive(Debug, Clone, Copy, PartialEq, Eq, Structural)]
pub struct UnregisterRequest {
    pub connection: usize,
    pub service_id: i64,
    pub asynchronous: bool,
}

/// Request to end a tracker's subscription.
#[derive(Debug, Clone, Copy, PartialEq, Eq, Structural)]
pub struct StopTrackerRequest {
    pub connection: usize,
    pub tracker_id: i64,
    pub asynchronous: bool,
}

/// What to do with a log message.
#[derive(Debug)]
pub enum LogAction {
    /// Hand the message to the runtime's log call on this connection.
    Forward { connection: usize, level: u32, message: String },
    /// The message cannot be encoded for the runtime, which reads a text up
    /// to its first zero byte. Print a diagnostic instead; `position` is the
    /// place of that byte.
    Diagnostic { position: usize },
}

/// Whether `action` is the right answer to a log call.
pub open spec fn is_log_action(
    action: LogAction,
    connection: usize,
    level: LogLevel,
    message: &str,
) -> bool {
    match action {
        LogAction::Forward { connection: c, level: l, message: m } => {
            &&& nul_free(message.spec_bytes())
            &&& c == connection
            &&& l == level.code()
            &&& m@ == message@
        },
        LogAction::Diagnostic { position } => is_first_nul(message.spec_bytes(), position as int),
    }
}

/// The context handle. It stands for the connection that the runtime opened
/// for one module, and is the starting point of every registration, query and
/// tracker of that module.
pub struct BundleContextImpl {
    c_bundle_context: usize,
}

impl BundleContextImpl {
    /// The connection that this handle wraps.
    pub closed spec fn connection(&self) -> usize {
        self.c_bundle_context
    }

    /// Wraps the connection that the runtime supplied at module start.
    pub fn new(c_bundle_context: usize) -> (ctx: Self)
        ensures
            ctx.connection() == c_bundle_context,
    {
        BundleContextImpl { c_bundle_context }
    }

    /// The connection, as the runtime's calls take it.
    pub fn get_c_bundle_context(&self) -> (connection: usize)
        ensures
            connection == self.connection(),
    {
        self.c_bundle_context
    }

    /// A non-owning reference to this context, for a handle that it issues.
    pub fn get_self(&self) -> (weak: ContextRef)
        ensures
            weak == (ContextRef { connection: self.connection() }),
    {
        ContextRef { connection: self.c_bundle_context }
    }

    /// Decides what becomes of a log message: it is forwarded to the runtime
    /// if it can be encoded, and replaced by a diagnostic if it holds a zero
    /// byte. A log call never fails.
    pub fn log(&self, level: LogLevel, message: &str) -> (action: LogAction)
        ensures
            is_log_action(action, self.connection(), level, message),
    {
        match nul_position(message) {
            Some(position) => LogAction::Diagnostic { position },
            None => LogAction::Forward {
                connection: self.c_bundle_context,
                level: level.into(),
                message: message.to_string(),
            },
        }
    }

    pub fn log_trace(&self, message: &str) -> (action: LogAction)
        ensures
            is_log_action(action, self.connection(), LogLevel::Trace, message),
    {
        self.log(LogLevel::Trace, message)
    }

    pub fn log_debug(&self, message: &str) -> (action: LogAction)
        ensures
            is_log_action(action, self.connection(), LogLevel::Debug, message),
    {
        self.log(LogLevel::Debug, message)
    }

    pub fn log_info(&self, message: &str) -> (action: LogAction)
        ensures
            is_log_action(action, self.connection(), LogLevel::Info, message),
    {
        self.log(LogLevel::Info, message)
    }

    pub fn log_warning(&self, message: &str) -> (action: LogAction)
        ensures
            is_log_action(action, self.connection(), LogLevel::Warning, message),
    {
        self.log(LogLevel::Warning, message)
    }

    pub fn log_error(&self, message: &str) -> (action: LogAction)
        ensures
            is_log_action(action, self.connection(), LogLevel::Error, message),
    {
        self.log(LogLevel::Error, message)
    }

    pub fn log_fatal(&self, message: &str) -> (action: LogAction)
        ensures
            is_log_action(action, self.connection(), LogLevel::Fatal, message),
    {
        self.log(LogLevel::Fatal, message)
    }

    /// Starts the publication of a service.
    pub fn register_service<S>(&self) -> (builder: ServiceRegistrationBuilder<'_, S>)
        ensures
            builder@ == RegistrationBuilderView::<S>::fresh(self.connection()),
    {
        ServiceRegistrationBuilder::new(self)
    }

    /// Starts a query that uses the best match.
    pub fn use_service<C>(&self) -> (builder: ServiceUseBuilder<'_, C>)
        ensures
            builder@ == UseBuilderView::<C>::fresh(self.connection(), false),
    {
        ServiceUseBuilder::new(self, false)
    }

    /// Starts a query that uses every match.
    pub fn use_services<C>(&self) -> (builder: ServiceUseBuilder<'_, C>)
        ensures
            builder@ == UseBuilderView::<C>::fresh(self.connection(), true),
    {
        ServiceUseBuilder::new(self, true)
    }

    /// Starts a tracker whose callbacks are written against the type named
    /// `service_type`.
    pub fn track_services<C>(&self, service_type: &str) -> (builder: ServiceTrackerBuilder<'_, C>)
        ensures
            builder@ == TrackerBuilderView::<C>::fresh(self.connection(), Some(service_type@)),
    {
        ServiceTrackerBuilder::new(self, Expected::Type(service_type.to_string()))
    }

    /// Starts a tracker whose callbacks take the erased service of any type.
    pub fn track_any_services<C>(&self) -> (builder: ServiceTrackerBuilder<'_, C>)
        ensures
            builder@ == TrackerBuilderView::<C>::fresh(self.connection(), None),
    {
        ServiceTrackerBuilder::new(self, Expected::Any)
    }

    /// The request that takes the service `service_id` out of the registry.
    pub fn unregister_service(&self, service_id: i64, asynchronous: bool) -> (request:
        UnregisterRequest)
        ensures
            request == (UnregisterRequest {
                connection: self.connection(),
                service_id,
                asynchronous,
            }),
    {
        UnregisterRequest { connection: self.c_bundle_context, service_id, asynchronous }
    }

    /// The request that ends the subscription of the tracker `tracker_id`.
    pub fn stop_tracker(&self, tracker_id: i64, asynchronous: bool) -> (request:
        StopTrackerRequest)
        ensures
            request == (StopTrackerRequest {
                connection: self.connection(),
                tracker_id,
                asynchronous,
            }),
    {
        StopTrackerRequest { connection: self.c_bundle_context, tracker_id, asynchronous }
    }
}

/// The connection of the context that was found when a back-reference was
/// resolved, if one was found.
pub open spec fn resolved(ctx: Option<&BundleContextImpl>) -> Option<usize> {
    match ctx {
        Some(found) => Some(found.connection()),
        None => None,
    }
}

/// A message is forwarded exactly if it has no zero byte, and two answers to
/// the same log call agree on where the zero byte stands.
pub proof fn lemma_log_action_determined(
    a: LogAction,
    b: LogAction,
    connection: usize,
    level: LogLevel,
    message: &str,
)
    requires
        is_log_action(a, connection, level, message),
        is_log_action(b, connection, level, message),
    ensures
        a is Forward <==> nul_free(message.spec_bytes()),
        a is Forward <==> b is Forward,
        a is Diagnostic ==> a == b,
{
}

} // verus!
