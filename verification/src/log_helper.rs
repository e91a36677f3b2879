//! A named log helper that writes to a log sink service, which it finds with
//! a tracker.

use vstd::prelude::*;
use vstd::string::StringExecFns;
use vstd::string::StringSliceAdditionalSpecFns;
use crate::bridge::ServiceRef;
use crate::bundle_context::BundleContextImpl;
use crate::encoding::is_first_nul;
use crate::encoding::nul_free;
use crate::encoding::nul_position;
use crate::log_level::LogLevel;
use crate::tracker::ServiceTrackerBuilder;
use crate::tracker::TrackerBuilderView;

verus! {

/// The name under which log sinks are published.
pub const LOG_SERVICE_NAME: &'static str = "celix_log_service";

/// The canonical name of the type of a log sink.
pub const LOG_SERVICE_TYPE: &'static str = "celix_log_service_t";

/// The filter that selects the sink of the helper called `name`.
pub open spec fn sink_filter_spec(name: Seq<char>) -> Seq<char> {
    "(name="@ + name + ")"@
}

/// What to do with a message given to a log helper.
#[derive(Debug)]
pub enum SinkAction {
    /// Call the log function of the sink at this address.
    Forward { sink: usize, level: u32, message: String },
    /// The message cannot be encoded for the sink, which reads a text up to
    /// its first zero byte. Print a diagnostic instead; `position` is the
    /// place of that byte.
    Diagnostic { position: usize },
    /// No sink is known: the message is dropped.
    NoSink,
}

/// Whether `action` is the right answer of a helper that knows the sink
/// `log_svc`.
pub open spec fn is_sink_action(
    action: SinkAction,
    log_svc: Option<usize>,
    level: LogLevel,
    message: &str,
) -> bool {
    match action {
        SinkAction::Diagnostic { position } => is_first_nul(message.spec_bytes(), position as int),
        SinkAction::NoSink => {
            &&& nul_free(message.spec_bytes())
            &&& (log_svc is None || log_svc == Some(0usize))
        },
        SinkAction::Forward { sink, level: l, message: m } => {
            &&& nul_free(message.spec_bytes())
            &&& log_svc == Some(sink)
            &&& sink != 0
            &&& l == level.code()
            &&& m@ == message@
        },
    }
}

/// Mathematical view of a `LogHelper`.
pub struct LogHelperView {
    pub name: Seq<char>,
    pub log_svc: Option<usize>,
}

/// A log helper. It is told by its tracker which sink to write to, and
/// writes nowhere while there is none.
pub struct LogHelper {
    name: String,
    log_svc: Option<usize>,
}

impl View for LogHelper {
    type V = LogHelperView;

    closed spec fn view(&self) -> LogHelperView {
        LogHelperView { name: self.name@, log_svc: self.log_svc }
    }
}

impl LogHelper {
    /// A helper called `name` that knows no sink yet.
    pub fn new(name: &str) -> (helper: Self)
        ensures
            helper@ == (LogHelperView { name: name@, log_svc: None }),
    {
        LogHelper { name: name.to_string(), log_svc: None }
    }

    /// The name of the helper.
    pub fn get_name(&self) -> (name: &str)
        ensures
            name@ == self@.name,
    {
        self.name.as_str()
    }

    /// The filter that selects this helper's sink among the log sinks.
    pub fn sink_filter(&self) -> (filter: String)
        ensures
            filter@ == sink_filter_spec(self@.name),
    {
        let mut filter = String::from_str("(name=");
        filter.append(self.name.as_str());
        filter.append(")");
        filter
    }

    /// The tracker that finds this helper's sink: it follows the best match
    /// among the log sinks that carry the helper's name, and reports each
    /// change to `on_set`.
    pub fn tracker<'a, C>(&self, ctx: &'a BundleContextImpl, on_set: C) -> (builder:
        ServiceTrackerBuilder<'a, C>)
        ensures
            builder@ == TrackerBuilderView::<C>::fresh(
                ctx.connection(),
                Some(LOG_SERVICE_TYPE@),
            ).with_service_name(LOG_SERVICE_NAME@).with_filter(
                sink_filter_spec(self@.name),
            ).with_set_callback(on_set),
    {
        let filter = self.sink_filter();
        let mut builder = ctx.track_services::<C>(LOG_SERVICE_TYPE);
        builder.with_service_name(LOG_SERVICE_NAME).with_filter(filter.as_str()).with_set_callback(
            on_set,
        );
        builder
    }

    /// Takes note of the sink that the tracker reports: the service that is
    /// now the best match, or none.
    pub fn set_celix_log_service(&mut self, optional_svc: Option<&ServiceRef>)
        ensures
            final(self)@ == (LogHelperView {
                name: old(self)@.name,
                log_svc: match optional_svc {
                    Some(svc) => Some(svc.address),
                    None => None,
                },
            }),
    {
        match optional_svc {
            Some(svc) => {
                self.log_svc = Some(svc.address);
            },
            None => {
                self.log_svc = None;
            },
        }
    }

    /// Decides what becomes of a message: it goes to the sink if one is known
    /// and the message can be encoded, is replaced by a diagnostic if it
    /// holds a zero byte, and is dropped if there is no sink. A log call
    /// never fails.
    pub fn log(&self, level: LogLevel, message: &str) -> (action: SinkAction)
        ensures
            is_sink_action(action, self@.log_svc, level, message),
    {
        match nul_position(message) {
            Some(position) => SinkAction::Diagnostic { position },
            None => match self.log_svc {
                Some(sink) => if sink == 0 {
                    SinkAction::NoSink
                } else {
                    SinkAction::Forward { sink, level: level.into(), message: message.to_string() }
                },
                None => SinkAction::NoSink,
            },
        }
    }

    pub fn log_trace(&self, message: &str) -> (action: SinkAction)
        ensures
            is_sink_action(action, self@.log_svc, LogLevel::Trace, message),
    {
        self.log(LogLevel::Trace, message)
    }

    pub fn log_debug(&self, message: &str) -> (action: SinkAction)
        ensures
            is_sink_action(action, self@.log_svc, LogLevel::Debug, message),
    {
        self.log(LogLevel::Debug, message)
    }

    pub fn log_info(&self, message: &str) -> (action: SinkAction)
        ensures
            is_sink_action(action, self@.log_svc, LogLevel::Info, message),
    {
        self.log(LogLevel::Info, message)
    }

    pub fn log_warning(&self, message: &str) -> (action: SinkAction)
        ensures
            is_sink_action(action, self@.log_svc, LogLevel::Warning, message),
    {
        self.log(LogLevel::Warning, message)
    }

    pub fn log_error(&self, message: &str) -> (action: SinkAction)
        ensures
            is_sink_action(action, self@.log_svc, LogLevel::Error, message),
    {
        self.log(LogLevel::Error, message)
    }

    pub fn log_fatal(&self, message: &str) -> (action: SinkAction)
        ensures
            is_sink_action(action, self@.log_svc, LogLevel::Fatal, message),
    {
        self.log(LogLevel::Fatal, message)
    }
}

} // verus!
