//! Tracking services: the builder of a tracker, and the tracker handle.
//!
//! A tracker is a lasting subscription. It is unbuilt while the builder
//! holds it, active from the moment the runtime assigned it an identifier,
//! and stopped, for good, once it was closed. In between lies the start: the
//! builder has handed its callback block to a `StartingTracker`, the runtime
//! was asked to subscribe, and its answer is awaited. The runtime reports
//! events from the moment it knows the callback block, so a starting tracker
//! answers them as an active one does: for each event it decides which of
//! its callbacks is invoked. A stopped tracker invokes nothing.

use vstd::prelude::*;
use crate::bridge::accepts_spec;
use crate::bridge::reconstruct_spec;
use crate::bridge::text_of;
use crate::bridge::Expected;
use crate::bridge::ServiceRef;
use crate::bridge::ServiceRefView;
use crate::bundle_context::resolved;
use crate::bundle_context::BundleContextImpl;
use crate::bundle_context::ContextRef;
use crate::bundle_context::StopTrackerRequest;
use crate::bundle_context::INACTIVE_ID;
use crate::encoding::encodable;
use crate::encoding::is_encodable;
use crate::errno::Error;

verus! {

/// The call that starts a subscription, as plain values.
#[derive(Debug)]
pub struct TrackerRequest {
    pub connection: usize,
    pub service_name: String,
    pub filter: Option<String>,
    pub has_set: bool,
    pub has_add: bool,
    pub has_remove: bool,
    pub asynchronous: bool,
}

/// Mathematical view of a `TrackerRequest`.
pub struct TrackerRequestView {
    pub connection: usize,
    pub service_name: Seq<char>,
    pub filter: Option<Seq<char>>,
    pub has_set: bool,
    pub has_add: bool,
    pub has_remove: bool,
    pub asynchronous: bool,
}

impl View for TrackerRequest {
    type V = TrackerRequestView;

    open spec fn view(&self) -> TrackerRequestView {
        TrackerRequestView {
            connection: self.connection,
            service_name: self.service_name@,
            filter: match self.filter {
                Some(filter) => Some(filter@),
                None => None,
            },
            has_set: self.has_set,
            has_add: self.has_add,
            has_remove: self.has_remove,
            asynchronous: self.asynchronous,
        }
    }
}

impl Clone for TrackerRequest {
    fn clone(&self) -> (copy: Self)
        ensures
            copy@ == self@,
    {
        TrackerRequest {
            connection: self.connection,
            service_name: self.service_name.clone(),
            filter: match &self.filter {
                Some(filter) => Some(filter.clone()),
                None => None,
            },
            has_set: self.has_set,
            has_add: self.has_add,
            has_remove: self.has_remove,
            asynchronous: self.asynchronous,
        }
    }
}

/// The callback block of a tracker: up to three callbacks, held as opaque
/// values, and what they expect of a service.
pub struct TrackerCallbacks<C> {
    pub expected: Expected,
    pub set: Option<C>,
    pub add: Option<C>,
    pub remove: Option<C>,
}

/// Mathematical view of a `TrackerCallbacks`.
pub struct TrackerCallbacksView<C> {
    pub expected: Option<Seq<char>>,
    pub set: Option<C>,
    pub add: Option<C>,
    pub remove: Option<C>,
}

impl<C> View for TrackerCallbacks<C> {
    type V = TrackerCallbacksView<C>;

    open spec fn view(&self) -> TrackerCallbacksView<C> {
        TrackerCallbacksView {
            expected: self.expected@,
            set: self.set,
            add: self.add,
            remove: self.remove,
        }
    }
}

impl<C> TrackerCallbacksView<C> {
    /// The block without its callbacks.
    pub open spec fn emptied(self) -> Self {
        TrackerCallbacksView { expected: self.expected, set: None, add: None, remove: None }
    }

    /// The callback that an event reaches, if any. A service of another type
    /// than expected reaches none. The report that no service matches
    /// reaches the set callback as it is.
    pub open spec fn target(self, event: TrackerEventView) -> Option<C> {
        match event {
            TrackerEventView::SetBest(None) => self.set,
            TrackerEventView::SetBest(Some(svc)) => if accepts_spec(self.expected, svc) {
                self.set
            } else {
                None
            },
            TrackerEventView::Add(svc) => if accepts_spec(self.expected, svc) {
                self.add
            } else {
                None
            },
            TrackerEventView::Remove(svc) => if accepts_spec(self.expected, svc) {
                self.remove
            } else {
                None
            },
        }
    }
}

/// What the runtime reports to a tracker.
#[derive(Debug)]
pub enum TrackerEvent {
    /// The best match changed: to this service, or to none.
    SetBest(Option<ServiceRef>),
    /// A match appeared.
    Add(ServiceRef),
    /// A match disappeared.
    Remove(ServiceRef),
}

/// Mathematical view of a `TrackerEvent`.
pub enum TrackerEventView {
    SetBest(Option<ServiceRefView>),
    Add(ServiceRefView),
    Remove(ServiceRefView),
}

impl View for TrackerEvent {
    type V = TrackerEventView;

    open spec fn view(&self) -> TrackerEventView {
        match self {
            TrackerEvent::SetBest(Some(svc)) => TrackerEventView::SetBest(Some(svc@)),
            TrackerEvent::SetBest(None) => TrackerEventView::SetBest(None),
            TrackerEvent::Add(svc) => TrackerEventView::Add(svc@),
            TrackerEvent::Remove(svc) => TrackerEventView::Remove(svc@),
        }
    }
}

/// The kind of a report, as the runtime tells them apart by the function it
/// calls.
#[derive(Debug, Clone, Copy, PartialEq, Eq, Structural)]
pub enum EventKind {
    SetBest,
    Add,
    Remove,
}

/// The event that a report of the runtime stands for, if any. The runtime
/// names a service by its address, and a null address names none. That no
/// service is the best match is an event; a match that appears or
/// disappears without a service is none. A report that names a service is
/// an event only while the context is there to tell what the service is.
pub open spec fn reported_event_spec(
    expected: Option<Seq<char>>,
    kind: EventKind,
    address: usize,
    context: Option<usize>,
    published_as: Option<Seq<char>>,
) -> Option<TrackerEventView> {
    if address == 0 {
        if kind == EventKind::SetBest {
            Some(TrackerEventView::SetBest(None))
        } else {
            None
        }
    } else if context is None {
        None
    } else {
        let svc = reconstruct_spec(expected, address, published_as);
        Some(
            match kind {
                EventKind::SetBest => TrackerEventView::SetBest(Some(svc)),
                EventKind::Add => TrackerEventView::Add(svc),
                EventKind::Remove => TrackerEventView::Remove(svc),
            },
        )
    }
}

/// The view of an event that may be missing.
pub open spec fn event_view(event: Option<TrackerEvent>) -> Option<TrackerEventView> {
    match event {
        Some(event) => Some(event@),
        None => None,
    }
}

/// Turns a report of the runtime into the event to dispatch, or into `None`
/// if the report is dropped. `address` is the service that the runtime
/// names, null for none; `ctx` is the tracker's context if resolving the
/// back-reference found it; `published_as` is the type under which the
/// object at `address` was published, where the context knows it.
pub fn reported_event(
    expected: &Expected,
    kind: EventKind,
    address: usize,
    ctx: Option<&BundleContextImpl>,
    published_as: Option<&str>,
) -> (event: Option<TrackerEvent>)
    ensures
        event_view(event) == reported_event_spec(
            expected@,
            kind,
            address,
            resolved(ctx),
            text_of(published_as),
        ),
{
    if address == 0 {
        return match kind {
            EventKind::SetBest => Some(TrackerEvent::SetBest(None)),
            _ => None,
        };
    }
    if ctx.is_none() {
        return None;
    }
    let svc = expected.reconstruct(address, published_as);
    match kind {
        EventKind::SetBest => Some(TrackerEvent::SetBest(Some(svc))),
        EventKind::Add => Some(TrackerEvent::Add(svc)),
        EventKind::Remove => Some(TrackerEvent::Remove(svc)),
    }
}

/// What closing a tracker asks of the caller.
#[derive(Debug, Clone, Copy, PartialEq, Eq, Structural)]
pub enum CloseAction {
    /// End the subscription in the registry.
    Stop(StopTrackerRequest),
    /// The context is gone, and the registry's side with it: make no call,
    /// and report that none was made.
    ReportContextGone,
    /// The tracker was stopped before: there is nothing to do.
    Nothing,
}

/// Mathematical view of a `ServiceTracker`.
pub struct TrackerView<C> {
    pub tracker_id: i64,
    pub weak_ctx: ContextRef,
    pub service_name: Seq<char>,
    pub callbacks: TrackerCallbacksView<C>,
    pub stop_async: bool,
}

impl<C> TrackerView<C> {
    /// Whether the subscription is running.
    pub open spec fn is_active(self) -> bool {
        self.tracker_id >= 0
    }

    /// The callback that an event reaches, if any. A stopped tracker reaches
    /// none; an active one reaches what its callback block selects.
    pub open spec fn target(self, event: TrackerEventView) -> Option<C> {
        if !self.is_active() {
            None
        } else {
            self.callbacks.target(event)
        }
    }

    /// What closing asks of the caller. `context` is the connection of the
    /// issuing context if it is still there.
    pub open spec fn close_action(self, context: Option<usize>) -> CloseAction {
        if !self.is_active() {
            CloseAction::Nothing
        } else {
            match context {
                Some(connection) => CloseAction::Stop(
                    StopTrackerRequest {
                        connection,
                        tracker_id: self.tracker_id,
                        asynchronous: self.stop_async,
                    },
                ),
                None => CloseAction::ReportContextGone,
            }
        }
    }

    /// The tracker after it was closed: marked inactive, its callback block
    /// still in place.
    pub open spec fn closed(self) -> Self {
        if !self.is_active() {
            self
        } else {
            TrackerView { tracker_id: INACTIVE_ID, ..self }
        }
    }
}

/// The handle of one subscription. It owns the callback block, which stays
/// in place until the handle itself is dropped.
pub struct ServiceTracker<C> {
    tracker_id: i64,
    weak_ctx: ContextRef,
    service_name: String,
    callbacks: TrackerCallbacks<C>,
    stop_async: bool,
}

impl<C> View for ServiceTracker<C> {
    type V = TrackerView<C>;

    closed spec fn view(&self) -> TrackerView<C> {
        TrackerView {
            tracker_id: self.tracker_id,
            weak_ctx: self.weak_ctx,
            service_name: self.service_name@,
            callbacks: self.callbacks@,
            stop_async: self.stop_async,
        }
    }
}

/// The callback behind a reference, as a value.
pub open spec fn pointee<C>(target: Option<&C>) -> Option<C> {
    match target {
        Some(callback) => Some(*callback),
        None => None,
    }
}

impl<C> TrackerCallbacks<C> {
    /// The callback of this block to invoke for an event, or `None` if the
    /// event is passed over: because no callback was supplied for this kind
    /// of event, or because the service is of another type than expected.
    pub fn dispatch(&self, event: &TrackerEvent) -> (target: Option<&C>)
        ensures
            pointee(target) == self@.target(event@),
    {
        match event {
            TrackerEvent::SetBest(None) => self.set.as_ref(),
            TrackerEvent::SetBest(Some(svc)) => if self.expected.accepts(svc) {
                self.set.as_ref()
            } else {
                None
            },
            TrackerEvent::Add(svc) => if self.expected.accepts(svc) {
                self.add.as_ref()
            } else {
                None
            },
            TrackerEvent::Remove(svc) => if self.expected.accepts(svc) {
                self.remove.as_ref()
            } else {
                None
            },
        }
    }
}

impl<C> ServiceTracker<C> {
    /// The identifier that the registry assigned, or `INACTIVE_ID` once the
    /// tracker was closed.
    pub fn tracker_id(&self) -> (id: i64)
        ensures
            id == self@.tracker_id,
    {
        self.tracker_id
    }

    /// The name of the tracked service.
    pub fn service_name(&self) -> (name: &str)
        ensures
            name@ == self@.service_name,
    {
        self.service_name.as_str()
    }

    /// The back-reference to the context that issued the handle.
    pub fn context(&self) -> (weak: ContextRef)
        ensures
            weak == self@.weak_ctx,
    {
        self.weak_ctx
    }

    /// Whether the subscription is running.
    pub fn is_active(&self) -> (active: bool)
        ensures
            active == self@.is_active(),
    {
        self.tracker_id >= 0
    }

    /// The callback to invoke for an event that the runtime reports, or
    /// `None` if the event is passed over: because the tracker is stopped,
    /// because no callback was supplied for this kind of event, or because
    /// the service is of another type than expected.
    pub fn dispatch(&self, event: &TrackerEvent) -> (target: Option<&C>)
        ensures
            pointee(target) == self@.target(event@),
    {
        if self.tracker_id < 0 {
            return None;
        }
        self.callbacks.dispatch(event)
    }

    /// Closes the tracker. `ctx` is the issuing context if resolving the
    /// back-reference found it. The first close asks the registry to end the
    /// subscription, or reports that the context is gone, and marks the
    /// tracker inactive. Every later close does nothing.
    pub fn close(&mut self, ctx: Option<&BundleContextImpl>) -> (action: CloseAction)
        ensures
            action == old(self)@.close_action(resolved(ctx)),
            final(self)@ == old(self)@.closed(),
    {
        if self.tracker_id < 0 {
            return CloseAction::Nothing;
        }
        let action = match ctx {
            Some(found) => CloseAction::Stop(found.stop_tracker(self.tracker_id, self.stop_async)),
            None => CloseAction::ReportContextGone,
        };
        self.tracker_id = INACTIVE_ID;
        action
    }
}

/// Mathematical view of a `StartingTracker`.
pub struct StartingTrackerView<C> {
    pub request: TrackerRequestView,
    pub weak_ctx: ContextRef,
    pub callbacks: TrackerCallbacksView<C>,
    pub stop_async: bool,
}

impl<C> StartingTrackerView<C> {
    /// The active tracker that the identifier `tracker_id` stands for.
    pub open spec fn tracker(self, tracker_id: i64) -> TrackerView<C> {
        TrackerView {
            tracker_id,
            weak_ctx: self.weak_ctx,
            service_name: self.request.service_name,
            callbacks: self.callbacks,
            stop_async: self.stop_async,
        }
    }
}

/// A tracker whose start was asked of the runtime and not yet answered. It
/// owns the callback block already, because the runtime may report events
/// before it answers.
pub struct StartingTracker<C> {
    request: TrackerRequest,
    weak_ctx: ContextRef,
    callbacks: TrackerCallbacks<C>,
    stop_async: bool,
}

impl<C> View for StartingTracker<C> {
    type V = StartingTrackerView<C>;

    closed spec fn view(&self) -> StartingTrackerView<C> {
        StartingTrackerView {
            request: self.request@,
            weak_ctx: self.weak_ctx,
            callbacks: self.callbacks@,
            stop_async: self.stop_async,
        }
    }
}

impl<C> StartingTracker<C> {
    /// The call that starts the subscription.
    pub fn request(&self) -> (request: &TrackerRequest)
        ensures
            request@ == self@.request,
    {
        &self.request
    }

    /// The callback to invoke for an event that the runtime reports while
    /// the start is under way, or `None` if the event is passed over.
    pub fn dispatch(&self, event: &TrackerEvent) -> (target: Option<&C>)
        ensures
            pointee(target) == self@.callbacks.target(event@),
    {
        self.callbacks.dispatch(event)
    }

    /// Takes the runtime's answer to the request. A non-negative identifier
    /// gives the active tracker, with the same callback block. A negative
    /// identifier is a rejection: it gives the bundle exception, and no
    /// tracker comes to be.
    pub fn started(self, tracker_id: i64) -> (outcome: Result<ServiceTracker<C>, Error>)
        ensures
            match outcome {
                Ok(tracker) => tracker_id >= 0 && tracker@ == self@.tracker(tracker_id),
                Err(e) => tracker_id < 0 && e == Error::BundleException,
            },
    {
        if tracker_id < 0 {
            return Err(Error::BundleException);
        }
        Ok(
            ServiceTracker {
                tracker_id,
                weak_ctx: self.weak_ctx,
                service_name: self.request.service_name,
                callbacks: self.callbacks,
                stop_async: self.stop_async,
            },
        )
    }
}

/// Mathematical view of a `ServiceTrackerBuilder`.
pub struct TrackerBuilderView<C> {
    pub connection: usize,
    pub service_name: Seq<char>,
    pub filter: Seq<char>,
    pub callbacks: TrackerCallbacksView<C>,
    pub track_async: bool,
    pub stop_async: bool,
}

impl<C> TrackerBuilderView<C> {
    /// A builder to which nothing was supplied yet. Starting and stopping
    /// are synchronous unless asked otherwise.
    pub open spec fn fresh(connection: usize, expected: Option<Seq<char>>) -> Self {
        TrackerBuilderView {
            connection,
            service_name: Seq::empty(),
            filter: Seq::empty(),
            callbacks: TrackerCallbacksView { expected, set: None, add: None, remove: None },
            track_async: false,
            stop_async: false,
        }
    }

    pub open spec fn with_service_name(self, name: Seq<char>) -> Self {
        TrackerBuilderView { service_name: name, ..self }
    }

    pub open spec fn with_filter(self, filter: Seq<char>) -> Self {
        TrackerBuilderView { filter, ..self }
    }

    pub open spec fn with_set_callback(self, handle: C) -> Self {
        TrackerBuilderView {
            callbacks: TrackerCallbacksView { set: Some(handle), ..self.callbacks },
            ..self
        }
    }

    pub open spec fn with_add_callback(self, handle: C) -> Self {
        TrackerBuilderView {
            callbacks: TrackerCallbacksView { add: Some(handle), ..self.callbacks },
            ..self
        }
    }

    pub open spec fn with_remove_callback(self, handle: C) -> Self {
        TrackerBuilderView {
            callbacks: TrackerCallbacksView { remove: Some(handle), ..self.callbacks },
            ..self
        }
    }

    pub open spec fn with_track_async(self, asynchronous: bool) -> Self {
        TrackerBuilderView { track_async: asynchronous, ..self }
    }

    pub open spec fn with_stop_async(self, asynchronous: bool) -> Self {
        TrackerBuilderView { stop_async: asynchronous, ..self }
    }

    /// A tracker is valid if it names a service.
    pub open spec fn is_valid(self) -> bool {
        self.service_name.len() > 0
    }

    /// The texts that go to the runtime can be handed over whole: neither
    /// the service name nor the filter holds a zero byte.
    pub open spec fn is_encodable(self) -> bool {
        encodable(self.service_name) && encodable(self.filter)
    }

    /// A tracker can be started if it is valid and its texts can be handed
    /// to the runtime.
    pub open spec fn can_track(self) -> bool {
        self.is_valid() && self.is_encodable()
    }

    /// The call that the builder describes. An empty filter is no filter.
    pub open spec fn request(self) -> TrackerRequestView {
        TrackerRequestView {
            connection: self.connection,
            service_name: self.service_name,
            filter: if self.filter.len() == 0 {
                None
            } else {
                Some(self.filter)
            },
            has_set: self.callbacks.set is Some,
            has_add: self.callbacks.add is Some,
            has_remove: self.callbacks.remove is Some,
            asynchronous: self.track_async,
        }
    }

    /// The starting tracker that takes over the builder's callback block.
    pub open spec fn starting(self) -> StartingTrackerView<C> {
        StartingTrackerView {
            request: self.request(),
            weak_ctx: ContextRef { connection: self.connection },
            callbacks: self.callbacks,
            stop_async: self.stop_async,
        }
    }

    /// The builder after its callback block went into a tracker.
    pub open spec fn after_build(self) -> Self {
        TrackerBuilderView { callbacks: self.callbacks.emptied(), ..self }
    }
}

/// Configures and validates one tracker.
pub struct ServiceTrackerBuilder<'a, C> {
    ctx: &'a BundleContextImpl,
    service_name: String,
    filter: String,
    callbacks: TrackerCallbacks<C>,
    track_async: bool,
    stop_async: bool,
}

impl<'a, C> View for ServiceTrackerBuilder<'a, C> {
    type V = TrackerBuilderView<C>;

    closed spec fn view(&self) -> TrackerBuilderView<C> {
        TrackerBuilderView {
            connection: self.ctx.connection(),
            service_name: self.service_name@,
            filter: self.filter@,
            callbacks: self.callbacks@,
            track_async: self.track_async,
            stop_async: self.stop_async,
        }
    }
}

impl<'a, C> ServiceTrackerBuilder<'a, C> {
    /// A builder on the context `ctx` whose callbacks expect `expected`.
    pub fn new(ctx: &'a BundleContextImpl, expected: Expected) -> (builder: Self)
        ensures
            builder@ == TrackerBuilderView::<C>::fresh(ctx.connection(), expected@),
    {
        ServiceTrackerBuilder {
            ctx,
            service_name: String::new(),
            filter: String::new(),
            callbacks: TrackerCallbacks { expected, set: None, add: None, remove: None },
            track_async: false,
            stop_async: false,
        }
    }

    /// Names the service to track.
    pub fn with_service_name(&mut self, name: &str) -> (ret: &mut Self)
        ensures
            (*ret)@ == old(self)@.with_service_name(name@),
            *final(self) == *final(ret),
    {
        self.service_name = name.to_string();
        self
    }

    /// Narrows the matches by a filter expression. An empty filter is no
    /// filter.
    pub fn with_filter(&mut self, filter: &str) -> (ret: &mut Self)
        ensures
            (*ret)@ == old(self)@.with_filter(filter@),
            *final(self) == *final(ret),
    {
        self.filter = filter.to_string();
        self
    }

    /// Supplies the callback for a change of the best match.
    pub fn with_set_callback(&mut self, closure: C) -> (ret: &mut Self)
        ensures
            (*ret)@ == old(self)@.with_set_callback(closure),
            *final(self) == *final(ret),
    {
        self.callbacks.set = Some(closure);
        self
    }

    /// Supplies the callback for a match that appears.
    pub fn with_add_callback(&mut self, closure: C) -> (ret: &mut Self)
        ensures
            (*ret)@ == old(self)@.with_add_callback(closure),
            *final(self) == *final(ret),
    {
        self.callbacks.add = Some(closure);
        self
    }

    /// Supplies the callback for a match that disappears.
    pub fn with_remove_callback(&mut self, closure: C) -> (ret: &mut Self)
        ensures
            (*ret)@ == old(self)@.with_remove_callback(closure),
            *final(self) == *final(ret),
    {
        self.callbacks.remove = Some(closure);
        self
    }

    /// Asks for a start that returns once the request is accepted.
    pub fn with_track_async(&mut self) -> (ret: &mut Self)
        ensures
            (*ret)@ == old(self)@.with_track_async(true),
            *final(self) == *final(ret),
    {
        self.track_async = true;
        self
    }

    /// Asks for a start that returns once the subscription runs.
    pub fn with_track_sync(&mut self) -> (ret: &mut Self)
        ensures
            (*ret)@ == old(self)@.with_track_async(false),
            *final(self) == *final(ret),
    {
        self.track_async = false;
        self
    }

    /// Asks for a stop that returns once the request is accepted.
    pub fn with_stop_async(&mut self) -> (ret: &mut Self)
        ensures
            (*ret)@ == old(self)@.with_stop_async(true),
            *final(self) == *final(ret),
    {
        self.stop_async = true;
        self
    }

    /// Asks for a stop that returns once no callback can run any more.
    pub fn with_stop_sync(&mut self) -> (ret: &mut Self)
        ensures
            (*ret)@ == old(self)@.with_stop_async(false),
            *final(self) == *final(ret),
    {
        self.stop_async = false;
        self
    }

    /// Fails with the bundle exception exactly if no service is named.
    pub fn validate(&self) -> (outcome: Result<(), Error>)
        ensures
            outcome == if self@.is_valid() {
                Ok::<(), Error>(())
            } else {
                Err::<(), Error>(Error::BundleException)
            },
    {
        if self.service_name.as_str().is_empty() {
            return Err(Error::BundleException);
        }
        Ok(())
    }

    /// Whether the service name and the filter can be handed to the runtime
    /// whole.
    pub fn is_encodable(&self) -> (whole: bool)
        ensures
            whole == self@.is_encodable(),
    {
        is_encodable(self.service_name.as_str()) && is_encodable(self.filter.as_str())
    }

    /// Validates the builder and begins the start of the subscription. Fails
    /// with the bundle exception exactly if no service is named, or if the
    /// service name or the filter holds a zero byte, which the runtime could
    /// not be given; it then leaves the builder as it is. Otherwise the callback block moves into
    /// a starting tracker, which describes the call to make, and the builder
    /// is left without callbacks.
    pub fn build(&mut self) -> (outcome: Result<StartingTracker<C>, Error>)
        ensures
            match outcome {
                Ok(starting) => {
                    &&& old(self)@.can_track()
                    &&& starting@ == old(self)@.starting()
                    &&& final(self)@ == old(self)@.after_build()
                },
                Err(e) => {
                    &&& !old(self)@.can_track()
                    &&& e == Error::BundleException
                    &&& final(self)@ == old(self)@
                },
            },
    {
        match self.validate() {
            Err(e) => Err(e),
            Ok(_) => {
                if !self.is_encodable() {
                    return Err(Error::BundleException);
                }
                let filter = if self.filter.as_str().is_empty() {
                    None
                } else {
                    Some(self.filter.clone())
                };
                let request = TrackerRequest {
                    connection: self.ctx.get_c_bundle_context(),
                    service_name: self.service_name.clone(),
                    filter,
                    has_set: self.callbacks.set.is_some(),
                    has_add: self.callbacks.add.is_some(),
                    has_remove: self.callbacks.remove.is_some(),
                    asynchronous: self.track_async,
                };
                let callbacks = TrackerCallbacks {
                    expected: self.callbacks.expected.clone(),
                    set: self.callbacks.set.take(),
                    add: self.callbacks.add.take(),
                    remove: self.callbacks.remove.take(),
                };
                Ok(
                    StartingTracker {
                        request,
                        weak_ctx: self.ctx.get_self(),
                        callbacks,
                        stop_async: self.stop_async,
                    },
                )
            },
        }
    }
}

/// A tracker stops at most once, and a stopped tracker is silent: after a
/// close no event reaches a callback, a further close asks nothing of the
/// registry, and the tracker stays as it is.
pub proof fn lemma_closed_is_silent<C>(
    tracker: TrackerView<C>,
    event: TrackerEventView,
    context: Option<usize>,
)
    ensures
        !tracker.closed().is_active(),
        tracker.closed().target(event) is None,
        tracker.closed().close_action(context) == CloseAction::Nothing,
        tracker.closed().closed() == tracker.closed(),
        tracker.closed().callbacks == tracker.callbacks,
{
}

/// While a tracker is active, each event reaches the callback of its own
/// kind and no other: the report that nothing matches reaches the set
/// callback; a service of the expected type reaches the set callback when it
/// becomes the best match, the add callback when it appears and the remove
/// callback when it disappears.
pub proof fn lemma_event_reaches_its_callback<C>(tracker: TrackerView<C>, svc: ServiceRefView)
    requires
        tracker.is_active(),
        accepts_spec(tracker.callbacks.expected, svc),
    ensures
        tracker.target(TrackerEventView::SetBest(None)) == tracker.callbacks.set,
        tracker.target(TrackerEventView::SetBest(Some(svc))) == tracker.callbacks.set,
        tracker.target(TrackerEventView::Add(svc)) == tracker.callbacks.add,
        tracker.target(TrackerEventView::Remove(svc)) == tracker.callbacks.remove,
{
}

/// A tracker cannot be started without a service name, nor with a zero byte
/// in the service name or in the filter.
pub proof fn lemma_track_needs_name_and_texts<C>(builder: TrackerBuilderView<C>)
    ensures
        builder.service_name.len() == 0 ==> !builder.can_track(),
        !encodable(builder.service_name) ==> !builder.can_track(),
        !encodable(builder.filter) ==> !builder.can_track(),
{
}

/// A report is dropped exactly if it names no service and is not about the
/// best match, or names a service while the context is gone. Every other
/// report is an event of its own kind.
pub proof fn lemma_reports_dropped(
    expected: Option<Seq<char>>,
    kind: EventKind,
    address: usize,
    context: Option<usize>,
    published_as: Option<Seq<char>>,
)
    ensures
        reported_event_spec(expected, kind, address, context, published_as) is None <==> (address
            == 0 && kind != EventKind::SetBest) || (address != 0 && context is None),
        reported_event_spec(expected, kind, address, context, published_as) matches Some(event)
            ==> match kind {
            EventKind::SetBest => event is SetBest,
            EventKind::Add => event is Add,
            EventKind::Remove => event is Remove,
        },
{
}

/// The events that the runtime reports while the start is under way reach
/// the same callbacks as those it reports once the tracker is active: the
/// callback block does not change when the identifier arrives.
pub proof fn lemma_start_keeps_the_callbacks<C>(
    builder: TrackerBuilderView<C>,
    tracker_id: i64,
    event: TrackerEventView,
)
    requires
        tracker_id >= 0,
    ensures
        builder.starting().callbacks == builder.callbacks,
        builder.starting().tracker(tracker_id).is_active(),
        builder.starting().tracker(tracker_id).target(event) == builder.starting().callbacks.target(
            event,
        ),
        builder.after_build().callbacks.set is None,
        builder.after_build().callbacks.add is None,
        builder.after_build().callbacks.remove is None,
{
}

} // verus!
