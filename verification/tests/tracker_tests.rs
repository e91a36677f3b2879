use celix::bridge::Expected;
use celix::bridge::ServiceRef;
use celix::bundle_context::BundleContextImpl;
use celix::bundle_context::ContextRef;
use celix::bundle_context::StopTrackerRequest;
use celix::tracker::reported_event;
use celix::tracker::CloseAction;
use celix::tracker::EventKind;
use celix::tracker::ServiceTracker;
use celix::tracker::ServiceTrackerBuilder;
use celix::tracker::StartingTracker;
use celix::tracker::TrackerCallbacks;
use celix::tracker::TrackerEvent;
use celix::Error;

fn starting(ctx: &BundleContextImpl) -> StartingTracker<&'static str> {
    let mut builder = ctx.track_services::<&'static str>("demo::Command");
    builder
        .with_service_name("cmd")
        .with_set_callback("on set")
        .with_add_callback("on add")
        .with_remove_callback("on remove");
    match builder.build() {
        Ok(starting) => starting,
        Err(e) => panic!("no tracker: {:?}", e),
    }
}

fn active(ctx: &BundleContextImpl, id: i64) -> ServiceTracker<&'static str> {
    match starting(ctx).started(id) {
        Ok(tracker) => tracker,
        Err(e) => panic!("no tracker: {:?}", e),
    }
}

fn command(address: usize) -> ServiceRef {
    ServiceRef::new(address, "demo::Command")
}

fn other(address: usize) -> ServiceRef {
    ServiceRef::new(address, "demo::Other")
}

#[test]
fn a_tracker_without_service_name_is_refused() {
    let ctx = BundleContextImpl::new(1);
    let mut builder = ctx.track_services::<u8>("demo::Command");
    builder.with_add_callback(1);
    assert_eq!(builder.validate(), Err(Error::BundleException));
    assert!(matches!(builder.build(), Err(Error::BundleException)));
    builder.with_service_name("");
    assert!(matches!(builder.build(), Err(Error::BundleException)));
    builder.with_service_name("cmd");
    assert_eq!(builder.validate(), Ok(()));
    // The refused builds left the callback with the builder.
    assert!(builder.build().unwrap().request().has_add);
}

#[test]
fn a_tracker_needs_no_callback() {
    let ctx = BundleContextImpl::new(1);
    let mut builder = ctx.track_any_services::<u8>();
    builder.with_service_name("cmd");
    let starting = builder.build().unwrap();
    let request = starting.request();
    assert!(!request.has_set && !request.has_add && !request.has_remove);
    let tracker = starting.started(0).unwrap();
    assert!(tracker.is_active());
    assert_eq!(tracker.dispatch(&TrackerEvent::Add(command(1))), None);
    assert_eq!(tracker.dispatch(&TrackerEvent::SetBest(None)), None);
}

#[test]
fn the_tracker_request_describes_the_registry_call() {
    let ctx = BundleContextImpl::new(0x42);
    let mut builder = ctx.track_services::<u8>("demo::Command");
    builder.with_service_name("cmd").with_filter("(name=x)").with_set_callback(1);
    let starting = builder.build().unwrap();
    let request = starting.request();
    assert_eq!(request.connection, 0x42);
    assert_eq!(request.service_name, "cmd");
    assert_eq!(request.filter, Some("(name=x)".to_string()));
    assert!(request.has_set);
    assert!(!request.has_add);
    assert!(!request.has_remove);
    assert!(!request.asynchronous);

    builder.with_filter("").with_set_callback(1).with_remove_callback(2).with_add_callback(3);
    let starting = builder.build().unwrap();
    let request = starting.request();
    assert_eq!(request.filter, None);
    assert!(request.has_set && request.has_add && request.has_remove);
}

#[test]
fn tracking_is_synchronous_unless_asked_otherwise() {
    let ctx = BundleContextImpl::new(1);
    let mut builder = ctx.track_any_services::<u8>();
    builder.with_service_name("cmd");
    assert!(!builder.build().unwrap().request().asynchronous);
    builder.with_track_async();
    assert!(builder.build().unwrap().request().asynchronous);
    builder.with_track_sync();
    assert!(!builder.build().unwrap().request().asynchronous);
}

#[test]
fn build_moves_the_callbacks_out_of_the_builder() {
    let ctx = BundleContextImpl::new(1);
    let mut builder = ctx.track_services::<u8>("demo::Command");
    builder.with_service_name("cmd").with_add_callback(7);
    let first = builder.build().unwrap();
    assert!(first.request().has_add);
    assert_eq!(first.dispatch(&TrackerEvent::Add(command(1))), Some(&7));
    let second = builder.build().unwrap();
    assert!(!second.request().has_add);
    assert_eq!(second.dispatch(&TrackerEvent::Add(command(1))), None);
}

#[test]
fn a_rejected_start_gives_no_tracker() {
    let ctx = BundleContextImpl::new(1);
    assert!(matches!(starting(&ctx).started(-1), Err(Error::BundleException)));
    assert!(matches!(starting(&ctx).started(i64::MIN), Err(Error::BundleException)));
    assert!(starting(&ctx).started(0).is_ok());
}

#[test]
fn a_starting_tracker_answers_events() {
    let ctx = BundleContextImpl::new(1);
    let starting = starting(&ctx);
    assert_eq!(starting.dispatch(&TrackerEvent::SetBest(None)), Some(&"on set"));
    assert_eq!(starting.dispatch(&TrackerEvent::Add(command(1))), Some(&"on add"));
    assert_eq!(starting.dispatch(&TrackerEvent::Remove(command(1))), Some(&"on remove"));
    assert_eq!(starting.dispatch(&TrackerEvent::Add(other(1))), None);
    let tracker = starting.started(3).unwrap();
    assert_eq!(tracker.dispatch(&TrackerEvent::Add(command(1))), Some(&"on add"));
}

#[test]
fn a_built_tracker_is_active() {
    let ctx = BundleContextImpl::new(0x42);
    let tracker = active(&ctx, 0);
    assert!(tracker.is_active());
    assert_eq!(tracker.tracker_id(), 0);
    assert_eq!(tracker.service_name(), "cmd");
    assert_eq!(tracker.context(), ContextRef { connection: 0x42 });
    assert_eq!(active(&ctx, i64::MAX).tracker_id(), i64::MAX);
}

#[test]
fn each_event_reaches_the_callback_of_its_kind() {
    let ctx = BundleContextImpl::new(1);
    let tracker = active(&ctx, 5);
    assert_eq!(tracker.dispatch(&TrackerEvent::SetBest(None)), Some(&"on set"));
    assert_eq!(tracker.dispatch(&TrackerEvent::SetBest(Some(command(1)))), Some(&"on set"));
    assert_eq!(tracker.dispatch(&TrackerEvent::Add(command(1))), Some(&"on add"));
    assert_eq!(tracker.dispatch(&TrackerEvent::Remove(command(1))), Some(&"on remove"));
}

#[test]
fn a_service_of_another_type_is_passed_over() {
    let ctx = BundleContextImpl::new(1);
    let tracker = active(&ctx, 5);
    assert_eq!(tracker.dispatch(&TrackerEvent::SetBest(Some(other(1)))), None);
    assert_eq!(tracker.dispatch(&TrackerEvent::Add(other(1))), None);
    assert_eq!(tracker.dispatch(&TrackerEvent::Remove(other(1))), None);
}

#[test]
fn an_any_tracker_takes_every_type() {
    let ctx = BundleContextImpl::new(1);
    let mut builder = ServiceTrackerBuilder::new(&ctx, Expected::Any);
    builder.with_service_name("cmd").with_add_callback(1u8);
    let tracker = builder.build().unwrap().started(2).unwrap();
    assert_eq!(tracker.dispatch(&TrackerEvent::Add(command(1))), Some(&1));
    assert_eq!(tracker.dispatch(&TrackerEvent::Add(other(1))), Some(&1));
    assert_eq!(tracker.dispatch(&TrackerEvent::Remove(other(1))), None);
}

#[test]
fn a_callback_block_selects_by_kind_and_type() {
    let block = TrackerCallbacks {
        expected: Expected::Type("demo::Command".to_string()),
        set: None,
        add: Some(1u8),
        remove: Some(2u8),
    };
    assert_eq!(block.dispatch(&TrackerEvent::SetBest(None)), None);
    assert_eq!(block.dispatch(&TrackerEvent::Add(command(1))), Some(&1));
    assert_eq!(block.dispatch(&TrackerEvent::Remove(command(1))), Some(&2));
    assert_eq!(block.dispatch(&TrackerEvent::Remove(other(1))), None);
}

#[test]
fn close_stops_the_subscription_once() {
    let ctx = BundleContextImpl::new(0x42);
    let mut tracker = active(&ctx, 5);
    assert_eq!(
        tracker.close(Some(&ctx)),
        CloseAction::Stop(StopTrackerRequest {
            connection: 0x42,
            tracker_id: 5,
            asynchronous: false
        })
    );
    assert!(!tracker.is_active());
    assert_eq!(tracker.tracker_id(), -1);
    assert_eq!(tracker.close(Some(&ctx)), CloseAction::Nothing);
    assert_eq!(tracker.close(None), CloseAction::Nothing);
}

#[test]
fn close_follows_the_stop_preference() {
    let ctx = BundleContextImpl::new(2);
    let mut builder = ctx.track_any_services::<u8>();
    builder.with_service_name("cmd").with_stop_async();
    let mut tracker = builder.build().unwrap().started(6).unwrap();
    assert_eq!(
        tracker.close(Some(&ctx)),
        CloseAction::Stop(StopTrackerRequest { connection: 2, tracker_id: 6, asynchronous: true })
    );
    builder.with_stop_sync();
    let mut tracker = builder.build().unwrap().started(7).unwrap();
    assert_eq!(
        tracker.close(Some(&ctx)),
        CloseAction::Stop(StopTrackerRequest { connection: 2, tracker_id: 7, asynchronous: false })
    );
}

#[test]
fn close_without_context_skips_the_registry() {
    let ctx = BundleContextImpl::new(1);
    let mut tracker = active(&ctx, 5);
    assert_eq!(tracker.close(None), CloseAction::ReportContextGone);
    assert!(!tracker.is_active());
    assert_eq!(tracker.close(Some(&ctx)), CloseAction::Nothing);
}

#[test]
fn no_callback_fires_after_close() {
    let ctx = BundleContextImpl::new(1);
    let mut tracker = active(&ctx, 5);
    tracker.close(Some(&ctx));
    assert_eq!(tracker.dispatch(&TrackerEvent::SetBest(None)), None);
    assert_eq!(tracker.dispatch(&TrackerEvent::SetBest(Some(command(1)))), None);
    assert_eq!(tracker.dispatch(&TrackerEvent::Add(command(1))), None);
    assert_eq!(tracker.dispatch(&TrackerEvent::Remove(command(1))), None);
}

#[test]
fn a_tracker_request_can_be_copied() {
    let ctx = BundleContextImpl::new(3);
    let mut builder = ctx.track_any_services::<u8>();
    builder.with_service_name("cmd").with_filter("(a=b)").with_add_callback(1).with_track_async();
    let starting = builder.build().unwrap();
    let copy = starting.request().clone();
    assert_eq!(copy.connection, 3);
    assert_eq!(copy.service_name, "cmd");
    assert_eq!(copy.filter, Some("(a=b)".to_string()));
    assert!(copy.has_add && !copy.has_set && !copy.has_remove);
    assert!(copy.asynchronous);
}

#[test]
fn a_zero_byte_in_the_service_name_of_a_tracker_is_refused() {
    let ctx = BundleContextImpl::new(1);
    let mut builder = ctx.track_any_services::<u8>();
    builder.with_service_name("cmd\0").with_add_callback(1);
    assert!(!builder.is_encodable());
    assert_eq!(builder.validate(), Ok(()));
    assert!(matches!(builder.build(), Err(Error::BundleException)));
    // The refused build left the callback with the builder.
    builder.with_service_name("cmd");
    assert!(builder.is_encodable());
    assert!(builder.build().unwrap().request().has_add);
}

#[test]
fn a_zero_byte_in_the_filter_of_a_tracker_is_refused() {
    let ctx = BundleContextImpl::new(1);
    let mut builder = ctx.track_any_services::<u8>();
    builder.with_service_name("cmd").with_filter("\0(a=b)");
    assert!(matches!(builder.build(), Err(Error::BundleException)));
    builder.with_filter("(a=b)");
    assert!(builder.build().is_ok());
}

fn typed() -> Expected {
    Expected::Type("demo::Command".to_string())
}

#[test]
fn a_report_without_service_is_an_event_only_for_the_best_match() {
    let ctx = BundleContextImpl::new(1);
    let event = reported_event(&typed(), EventKind::SetBest, 0, Some(&ctx), None);
    assert!(matches!(event, Some(TrackerEvent::SetBest(None))));
    // That nothing matches is told even when the context is gone.
    let event = reported_event(&typed(), EventKind::SetBest, 0, None, None);
    assert!(matches!(event, Some(TrackerEvent::SetBest(None))));
    assert!(reported_event(&typed(), EventKind::Add, 0, Some(&ctx), None).is_none());
    assert!(reported_event(&typed(), EventKind::Remove, 0, Some(&ctx), None).is_none());
    assert!(reported_event(&typed(), EventKind::Add, 0, Some(&ctx), Some("x")).is_none());
}

#[test]
fn a_report_with_service_is_dropped_when_the_context_is_gone() {
    for kind in [EventKind::SetBest, EventKind::Add, EventKind::Remove] {
        assert!(reported_event(&typed(), kind, 0x10, None, None).is_none());
        assert!(reported_event(&typed(), kind, 0x10, None, Some("demo::Command")).is_none());
    }
}

#[test]
fn a_report_with_service_is_an_event_of_its_kind() {
    let ctx = BundleContextImpl::new(1);
    match reported_event(&typed(), EventKind::SetBest, 0x10, Some(&ctx), Some("demo::Other")) {
        Some(TrackerEvent::SetBest(Some(svc))) => {
            assert_eq!(svc.address, 0x10);
            assert_eq!(svc.service_type, "demo::Other");
        }
        other => panic!("not the best match: {:?}", other),
    }
    match reported_event(&typed(), EventKind::Add, 0x20, Some(&ctx), None) {
        Some(TrackerEvent::Add(svc)) => {
            assert_eq!(svc.address, 0x20);
            assert_eq!(svc.service_type, "demo::Command");
        }
        other => panic!("not an appearance: {:?}", other),
    }
    match reported_event(&Expected::Any, EventKind::Remove, 0x30, Some(&ctx), None) {
        Some(TrackerEvent::Remove(svc)) => {
            assert_eq!(svc.address, 0x30);
            assert_eq!(svc.service_type, "");
        }
        other => panic!("not a disappearance: {:?}", other),
    }
}

#[test]
fn a_reported_event_goes_through_the_tracker() {
    let ctx = BundleContextImpl::new(1);
    let tracker = active(&ctx, 5);
    let event = reported_event(&typed(), EventKind::Add, 0x20, Some(&ctx), None).unwrap();
    assert_eq!(tracker.dispatch(&event), Some(&"on add"));
    let event =
        reported_event(&typed(), EventKind::Add, 0x20, Some(&ctx), Some("demo::Other")).unwrap();
    assert_eq!(tracker.dispatch(&event), None);
}
