use std::rc::Rc;

use celix::bundle_context::BundleContextImpl;
use celix::bundle_context::ContextRef;
use celix::bundle_context::UnregisterRequest;
use celix::bundle_context::INACTIVE_ID;
use celix::registration::RegistrationProblem;
use celix::registration::ReleaseStep;
use celix::registration::ServiceRegistration;
use celix::registration::ServiceRegistrationBuilder;
use celix::Error;
use celix::Properties;

fn unregister_requests<S>(steps: &[ReleaseStep<S>]) -> Vec<UnregisterRequest> {
    let mut found = Vec::new();
    for step in steps {
        if let ReleaseStep::Unregister(request) = step {
            found.push(*request);
        }
    }
    found
}

fn registered(ctx: &BundleContextImpl, id: i64) -> ServiceRegistration<String> {
    let mut builder = ctx.register_service::<String>();
    builder.with_service("demo::Greeter", "hello".to_string(), 0x1000);
    match builder.complete(id) {
        Ok(registration) => registration,
        Err(e) => panic!("not registered: {:?}", e),
    }
}

#[test]
fn publishing_without_name_and_instance_is_refused() {
    let ctx = BundleContextImpl::new(1);
    let builder = ctx.register_service::<u32>();
    assert!(matches!(builder.build(), Err(Error::BundleException)));
    assert_eq!(builder.validate(), Err(Error::BundleException));
    assert_eq!(
        builder.problems(),
        vec![RegistrationProblem::EmptyServiceName, RegistrationProblem::NoInstance]
    );
}

#[test]
fn publishing_without_instance_is_refused() {
    let ctx = BundleContextImpl::new(1);
    let mut builder = ctx.register_service::<u32>();
    builder.with_service_name("cmd");
    assert!(matches!(builder.build(), Err(Error::BundleException)));
    assert_eq!(builder.problems(), vec![RegistrationProblem::NoInstance]);
    assert!(matches!(builder.complete(3), Err(Error::BundleException)));
}

#[test]
fn publishing_without_any_name_is_refused() {
    let ctx = BundleContextImpl::new(1);
    let mut builder = ctx.register_service::<u32>();
    builder.with_service("", 5, 0x1000);
    assert!(matches!(builder.build(), Err(Error::BundleException)));
    assert_eq!(builder.problems(), vec![RegistrationProblem::EmptyServiceName]);
}

#[test]
fn problems_have_their_messages() {
    assert_eq!(
        RegistrationProblem::EmptyServiceName.message(),
        "Cannot register service. Service name is empty"
    );
    assert_eq!(
        RegistrationProblem::NoInstance.message(),
        "Cannot register service. No instance provided"
    );
    assert_eq!(
        RegistrationProblem::ZeroByteInText.message(),
        "Cannot register service. A text holds a zero byte"
    );
}

#[test]
fn a_null_unmanaged_pointer_is_no_instance() {
    let ctx = BundleContextImpl::new(1);
    let mut builder = ctx.register_service::<u32>();
    builder.with_service_name("cmd").with_unmanaged_service("demo::Command", 0);
    assert!(matches!(builder.build(), Err(Error::BundleException)));
    assert_eq!(builder.problems(), vec![RegistrationProblem::NoInstance]);
}

#[test]
fn the_type_names_the_service_unless_a_name_was_set() {
    let ctx = BundleContextImpl::new(1);
    let mut builder = ctx.register_service::<u32>();
    builder.with_service("demo::Command", 5, 0x1000);
    let request = builder.build().unwrap();
    assert_eq!(request.service_name, "demo::Command");
    assert_eq!(request.service_type, "demo::Command");

    let mut builder = ctx.register_service::<u32>();
    builder.with_service_name("cmd").with_service("demo::Command", 5, 0x1000);
    let request = builder.build().unwrap();
    assert_eq!(request.service_name, "cmd");
    assert_eq!(request.service_type, "demo::Command");

    let mut builder = ctx.register_service::<u32>();
    builder.with_service("demo::Command", 5, 0x1000).with_service_name("cmd");
    assert_eq!(builder.build().unwrap().service_name, "cmd");
}

#[test]
fn the_registration_request_describes_the_registry_call() {
    let ctx = BundleContextImpl::new(0x77);
    let mut builder = ctx.register_service::<u32>();
    builder
        .with_service_name("cmd")
        .with_service("demo::Command", 5, 0x1000)
        .with_version("1.2.3")
        .with_property("command.name", "foo")
        .with_property("command.description", "first")
        .with_property("command.description", "second");
    let request = builder.build().unwrap();
    assert_eq!(request.connection, 0x77);
    assert_eq!(request.svc, 0x1000);
    assert_eq!(request.service_name, "cmd");
    assert_eq!(request.service_version, Some("1.2.3".to_string()));
    assert!(!request.asynchronous);
    assert_eq!(request.properties.len(), 2);
    assert_eq!(request.properties.get("command.name"), Some("foo"));
    assert_eq!(request.properties.get("command.description"), Some("second"));
    let service = request.service();
    assert_eq!(service.address, 0x1000);
    assert_eq!(service.service_type, "demo::Command");
}

#[test]
fn an_empty_version_is_no_version() {
    let ctx = BundleContextImpl::new(1);
    let mut builder = ctx.register_service::<u32>();
    builder.with_service("demo::Command", 5, 0x1000);
    assert_eq!(builder.build().unwrap().service_version, None);
    builder.with_version("2.0");
    assert_eq!(builder.build().unwrap().service_version, Some("2.0".to_string()));
    builder.with_version("");
    assert_eq!(builder.build().unwrap().service_version, None);
}

#[test]
fn with_properties_replaces_the_whole_set() {
    let ctx = BundleContextImpl::new(1);
    let mut replacement = Properties::new();
    replacement.set("x", "1");
    let mut builder = ctx.register_service::<u32>();
    builder
        .with_service("demo::Command", 5, 0x1000)
        .with_property("old", "gone")
        .with_properties(replacement)
        .with_property("y", "2");
    let request = builder.build().unwrap();
    assert_eq!(request.properties.len(), 2);
    assert_eq!(request.properties.get("x"), Some("1"));
    assert_eq!(request.properties.get("y"), Some("2"));
    assert_eq!(request.properties.get("old"), None);
}

#[test]
fn registering_is_synchronous_unless_asked_otherwise() {
    let ctx = BundleContextImpl::new(1);
    let mut builder = ctx.register_service::<u32>();
    builder.with_service("demo::Command", 5, 0x1000);
    assert!(!builder.build().unwrap().asynchronous);
    builder.with_register_async();
    assert!(builder.build().unwrap().asynchronous);
    builder.with_register_sync();
    assert!(!builder.build().unwrap().asynchronous);
}

#[test]
fn the_unmanaged_address_is_handed_on_unchanged() {
    let ctx = BundleContextImpl::new(1);
    let mut builder = ctx.register_service::<u32>();
    builder.with_unmanaged_service("demo::Command", 0xdead0);
    assert_eq!(builder.get_c_svc(), 0xdead0);
    assert_eq!(builder.build().unwrap().svc, 0xdead0);
    let registration = builder.complete(4).unwrap();
    assert_eq!(registration.address(), 0xdead0);
    // The caller still owns the object, so the builder can publish it again.
    assert_eq!(builder.build().unwrap().svc, 0xdead0);
}

#[test]
fn the_later_storage_mode_replaces_the_earlier() {
    let ctx = BundleContextImpl::new(1);
    let mut builder = ctx.register_service::<u32>();
    builder.with_unmanaged_service("demo::A", 0x10).with_service("demo::B", 5, 0x20);
    let request = builder.build().unwrap();
    assert_eq!(request.svc, 0x20);
    assert_eq!(request.service_type, "demo::B");
    assert_eq!(request.service_name, "demo::A");
    builder.with_unmanaged_service("demo::C", 0x30);
    assert_eq!(builder.build().unwrap().svc, 0x30);
    let mut registration = builder.complete(1).unwrap();
    let steps = registration.release(Some(&ctx));
    assert_eq!(steps.len(), 1);
}

#[test]
fn a_rejected_request_leaves_the_object_with_the_builder() {
    let ctx = BundleContextImpl::new(1);
    let object = Rc::new(5u32);
    let mut builder = ctx.register_service::<Rc<u32>>();
    builder.with_service("demo::Command", object.clone(), 0x1000);
    assert!(matches!(builder.complete(-1), Err(Error::BundleException)));
    assert!(matches!(builder.complete(i64::MIN), Err(Error::BundleException)));
    assert_eq!(Rc::strong_count(&object), 2);
    assert_eq!(builder.build().unwrap().svc, 0x1000);
    let registration = builder.complete(0).unwrap();
    assert_eq!(registration.service_id(), 0);
    assert_eq!(Rc::strong_count(&object), 2);
}

#[test]
fn the_registration_takes_the_owned_object() {
    let ctx = BundleContextImpl::new(0x77);
    let mut builder = ctx.register_service::<String>();
    builder.with_service_name("cmd").with_service("demo::Command", "payload".to_string(), 0x1000);
    let registration = builder.complete(12).unwrap();
    assert_eq!(registration.service_id(), 12);
    assert_eq!(registration.service_name(), "cmd");
    assert_eq!(registration.context(), ContextRef { connection: 0x77 });
    assert_eq!(registration.address(), 0x1000);
    assert!(registration.is_registered());
    // The builder gave its object away and cannot publish again.
    assert!(matches!(builder.build(), Err(Error::BundleException)));
    assert!(matches!(builder.complete(13), Err(Error::BundleException)));
}

#[test]
fn release_unregisters_and_then_drops_the_storage() {
    let ctx = BundleContextImpl::new(0x77);
    let mut registration = registered(&ctx, 12);
    let steps = registration.release(Some(&ctx));
    assert_eq!(steps.len(), 2);
    assert!(matches!(
        &steps[0],
        ReleaseStep::Unregister(UnregisterRequest {
            connection: 0x77,
            service_id: 12,
            asynchronous: false
        })
    ));
    match &steps[1] {
        ReleaseStep::DropStorage(object) => assert_eq!(object, "hello"),
        _ => panic!("the second step drops the storage"),
    }
    assert!(!registration.is_registered());
    assert_eq!(registration.service_id(), INACTIVE_ID);
    assert_eq!(registration.service_id(), -1);
    assert_eq!(registration.address(), 0);
}

#[test]
fn a_second_release_does_nothing() {
    let ctx = BundleContextImpl::new(0x77);
    let mut registration = registered(&ctx, 12);
    let first = registration.release(Some(&ctx));
    assert_eq!(unregister_requests(&first).len(), 1);
    let second = registration.release(Some(&ctx));
    assert!(second.is_empty());
    let third = registration.release(None);
    assert!(third.is_empty());
    assert_eq!(registration.service_id(), -1);
}

#[test]
fn release_without_context_skips_the_registry() {
    let ctx = BundleContextImpl::new(0x77);
    let mut registration = registered(&ctx, 12);
    let steps = registration.release(None);
    assert_eq!(steps.len(), 2);
    assert!(matches!(&steps[0], ReleaseStep::ReportContextGone));
    assert!(matches!(&steps[1], ReleaseStep::DropStorage(_)));
    assert!(unregister_requests(&steps).is_empty());
    // The context coming back later changes nothing: the handle is released.
    assert!(registration.release(Some(&ctx)).is_empty());
}

#[test]
fn release_follows_the_unregister_preference() {
    let ctx = BundleContextImpl::new(3);
    let mut builder = ctx.register_service::<u32>();
    builder.with_service("demo::Command", 5, 0x1000).with_unregister_async();
    let mut registration = builder.complete(8).unwrap();
    let steps = registration.release(Some(&ctx));
    assert_eq!(
        unregister_requests(&steps),
        vec![UnregisterRequest { connection: 3, service_id: 8, asynchronous: true }]
    );

    let mut builder = ctx.register_service::<u32>();
    builder
        .with_service("demo::Command", 5, 0x1000)
        .with_unregister_async()
        .with_unregister_sync();
    let mut registration = builder.complete(9).unwrap();
    let steps = registration.release(Some(&ctx));
    assert_eq!(
        unregister_requests(&steps),
        vec![UnregisterRequest { connection: 3, service_id: 9, asynchronous: false }]
    );
}

#[test]
fn release_asks_the_context_that_was_resolved() {
    let issuing = BundleContextImpl::new(3);
    let mut registration = registered(&issuing, 8);
    let resolved = BundleContextImpl::new(3);
    let steps = registration.release(Some(&resolved));
    assert_eq!(unregister_requests(&steps)[0].connection, 3);
}

#[test]
fn a_new_builder_starts_empty() {
    let ctx = BundleContextImpl::new(1);
    let mut builder: ServiceRegistrationBuilder<u32> = ServiceRegistrationBuilder::new(&ctx);
    assert_eq!(builder.problems().len(), 2);
    builder.with_service("demo::Command", 1, 0x10);
    let request = builder.build().unwrap();
    assert!(request.properties.is_empty());
    assert_eq!(request.service_version, None);
    assert_eq!(request.connection, 1);
}

fn refused_with_zero_byte(builder: &mut ServiceRegistrationBuilder<u32>) {
    assert!(!builder.is_encodable());
    // The builder has a name and an object, so it is valid as far as that goes.
    assert_eq!(builder.validate(), Ok(()));
    assert_eq!(builder.problems(), vec![RegistrationProblem::ZeroByteInText]);
    assert!(matches!(builder.build(), Err(Error::BundleException)));
    assert!(matches!(builder.complete(7), Err(Error::BundleException)));
}

#[test]
fn a_zero_byte_in_the_name_is_refused() {
    let ctx = BundleContextImpl::new(1);
    let mut builder = ctx.register_service::<u32>();
    builder.with_service_name("a\0b").with_service("demo::Command", 5, 0x1000);
    refused_with_zero_byte(&mut builder);
    // Nothing was handed out: with a name that can be encoded the same object is published.
    builder.with_service_name("ab");
    assert!(builder.is_encodable());
    assert_eq!(builder.build().unwrap().service_name, "ab");
    assert_eq!(builder.complete(7).unwrap().service_id(), 7);
}

#[test]
fn a_zero_byte_in_the_version_is_refused() {
    let ctx = BundleContextImpl::new(1);
    let mut builder = ctx.register_service::<u32>();
    builder.with_service_name("cmd").with_service("demo::Command", 5, 0x1000).with_version("1.\0");
    refused_with_zero_byte(&mut builder);
}

#[test]
fn a_zero_byte_in_a_property_is_refused() {
    let ctx = BundleContextImpl::new(1);
    let mut builder = ctx.register_service::<u32>();
    builder
        .with_service_name("cmd")
        .with_service("demo::Command", 5, 0x1000)
        .with_property("fine", "fine")
        .with_property("ke\0y", "value");
    refused_with_zero_byte(&mut builder);

    let mut builder = ctx.register_service::<u32>();
    builder
        .with_service_name("cmd")
        .with_service("demo::Command", 5, 0x1000)
        .with_property("key", "\0");
    refused_with_zero_byte(&mut builder);
    // Replacing the value lifts the refusal.
    builder.with_property("key", "value");
    assert!(builder.build().is_ok());
}

#[test]
fn a_zero_byte_in_the_type_name_names_the_service_and_is_refused() {
    let ctx = BundleContextImpl::new(1);
    let mut builder = ctx.register_service::<u32>();
    builder.with_service("demo::\0", 5, 0x1000);
    refused_with_zero_byte(&mut builder);
}

#[test]
fn all_problems_are_listed_in_order() {
    let ctx = BundleContextImpl::new(1);
    let mut builder = ctx.register_service::<u32>();
    builder.with_version("\0");
    assert_eq!(
        builder.problems(),
        vec![
            RegistrationProblem::EmptyServiceName,
            RegistrationProblem::NoInstance,
            RegistrationProblem::ZeroByteInText
        ]
    );
    assert_eq!(builder.validate(), Err(Error::BundleException));
    assert!(matches!(builder.build(), Err(Error::BundleException)));
}

#[test]
fn the_address_handed_on_is_never_null() {
    let ctx = BundleContextImpl::new(1);
    let mut builder = ctx.register_service::<u32>();
    assert!(!builder.has_instance());
    builder.with_unmanaged_service("demo::Command", 0);
    assert!(!builder.has_instance());
    builder.with_unmanaged_service("demo::Command", 1);
    assert!(builder.has_instance());
    assert_eq!(builder.get_c_svc(), 1);
    builder.with_service("demo::Command", 5, usize::MAX);
    assert!(builder.has_instance());
    assert_eq!(builder.get_c_svc(), usize::MAX);
}
