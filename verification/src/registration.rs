//! Publishing a service: the registration builder and the registration
//! handle.
//!
//! Publishing takes two steps around one call of the runtime. The builder
//! first validates what it was given, makes sure that every text can be
//! handed to the runtime whole, and describes the call as a
//! `RegistrationRequest`. The caller performs the call and passes the
//! identifier that the runtime answered to `complete`, which hands out the
//! `ServiceRegistration`. Only then does an owned object change hands, so a
//! rejected request leaves it with the builder.
//!
//! Releasing a registration yields the steps to perform, in their order:
//! the service leaves the registry before its owned storage is dropped.

use vstd::prelude::*;
use crate::bridge::accepts_spec;
use crate::bridge::ServiceRef;
use crate::bridge::ServiceRefView;
use crate::bundle_context::resolved;
use crate::bundle_context::BundleContextImpl;
use crate::bundle_context::ContextRef;
use crate::bundle_context::UnregisterRequest;
use crate::bundle_context::INACTIVE_ID;
use crate::encoding::encodable;
use crate::encoding::is_encodable;
use crate::errno::Error;
use crate::properties::encodable_pairs;
use crate::properties::Properties;

verus! {

/// Where the published object lives. At most one of the two storage modes is
/// active, and an object that is there stands at an address that is not
/// null.
pub enum ServiceStorage<S> {
    /// No object was supplied.
    Absent,
    /// The object belongs to the registration, pinned at `address` for as
    /// long as the registration lasts.
    Owned { object: S, address: usize },
    /// The object belongs to the caller, who keeps `address` valid.
    Unmanaged { address: usize },
}

impl<S> ServiceStorage<S> {
    /// The address that the registry is given.
    pub open spec fn address(self) -> usize {
        match self {
            ServiceStorage::Absent => 0,
            ServiceStorage::Owned { object, address } => address,
            ServiceStorage::Unmanaged { address } => address,
        }
    }

    /// Whether there is an object to publish: the storage names an address.
    pub open spec fn is_present(self) -> bool {
        self.address() != 0
    }

    /// What the builder keeps once a registration was handed out: an owned
    /// object has moved to the registration, a caller-owned one is still
    /// named.
    pub open spec fn after_take(self) -> ServiceStorage<S> {
        match self {
            ServiceStorage::Owned { object, address } => ServiceStorage::Absent,
            other => other,
        }
    }
}

/// Why a builder cannot publish.
#[derive(Debug, Clone, Copy, PartialEq, Eq, Structural)]
pub enum RegistrationProblem {
    /// No name was set, and no type supplied one.
    EmptyServiceName,
    /// Neither an owned object nor a caller's object was supplied.
    NoInstance,
    /// The name, the version, or a key or a value of the properties holds a
    /// zero byte, where the runtime would stop reading.
    ZeroByteInText,
}

impl RegistrationProblem {
    /// The text that reports the problem.
    pub fn message(&self) -> (text: &'static str)
        ensures
            text@ == match *self {
                RegistrationProblem::EmptyServiceName =>
                    "Cannot register service. Service name is empty"@,
                RegistrationProblem::NoInstance =>
                    "Cannot register service. No instance provided"@,
                RegistrationProblem::ZeroByteInText =>
                    "Cannot register service. A text holds a zero byte"@,
            },
    {
        match self {
            RegistrationProblem::EmptyServiceName =>
                "Cannot register service. Service name is empty",
            RegistrationProblem::NoInstance => "Cannot register service. No instance provided",
            RegistrationProblem::ZeroByteInText =>
                "Cannot register service. A text holds a zero byte",
        }
    }
}

/// The call that publishes a service, as plain values.
#[derive(Debug)]
pub struct RegistrationRequest {
    pub connection: usize,
    pub svc: usize,
    pub service_type: String,
    pub service_name: String,
    pub service_version: Option<String>,
    pub properties: Properties,
    pub asynchronous: bool,
}

/// Mathematical view of a `RegistrationRequest`.
pub struct RegistrationRequestView {
    pub connection: usize,
    pub svc: usize,
    pub service_type: Seq<char>,
    pub service_name: Seq<char>,
    pub service_version: Option<Seq<char>>,
    pub properties: Map<Seq<char>, Seq<char>>,
    pub asynchronous: bool,
}

impl View for RegistrationRequest {
    type V = RegistrationRequestView;

    open spec fn view(&self) -> RegistrationRequestView {
        RegistrationRequestView {
            connection: self.connection,
            svc: self.svc,
            service_type: self.service_type@,
            service_name: self.service_name@,
            service_version: match self.service_version {
                Some(version) => Some(version@),
                None => None,
            },
            properties: self.properties@,
            asynchronous: self.asynchronous,
        }
    }
}

impl RegistrationRequestView {
    /// The published object as the registry will hand it out.
    pub open spec fn service(self) -> ServiceRefView {
        ServiceRefView { address: self.svc, service_type: self.service_type }
    }
}

impl RegistrationRequest {
    /// The published object as the registry will hand it out: the address
    /// given to the registry, and the type it was published as.
    pub fn service(&self) -> (svc: ServiceRef)
        ensures
            svc@ == self@.service(),
    {
        ServiceRef::new(self.svc, self.service_type.as_str())
    }
}

/// Mathematical view of a `ServiceRegistrationBuilder`.
pub struct RegistrationBuilderView<S> {
    pub connection: usize,
    pub storage: ServiceStorage<S>,
    pub service_type: Seq<char>,
    pub service_name: Seq<char>,
    pub service_version: Seq<char>,
    pub service_properties: Map<Seq<char>, Seq<char>>,
    pub register_async: bool,
    pub unregister_async: bool,
}

impl<S> RegistrationBuilderView<S> {
    /// A builder to which nothing was supplied yet. Registering and
    /// unregistering are synchronous unless asked otherwise.
    pub open spec fn fresh(connection: usize) -> Self {
        RegistrationBuilderView {
            connection,
            storage: ServiceStorage::Absent,
            service_type: Seq::empty(),
            service_name: Seq::empty(),
            service_version: Seq::empty(),
            service_properties: Map::empty(),
            register_async: false,
            unregister_async: false,
        }
    }

    pub open spec fn with_service_name(self, name: Seq<char>) -> Self {
        RegistrationBuilderView { service_name: name, ..self }
    }

    /// The name becomes `name` only if none was set before.
    pub open spec fn with_service_name_if_not_set(self, name: Seq<char>) -> Self {
        if self.service_name.len() == 0 {
            self.with_service_name(name)
        } else {
            self
        }
    }

    pub open spec fn with_service(self, service_type: Seq<char>, object: S, address: usize) -> Self {
        RegistrationBuilderView {
            storage: ServiceStorage::Owned { object, address },
            service_type,
            ..self
        }.with_service_name_if_not_set(service_type)
    }

    /// A null address supplies no object.
    pub open spec fn with_unmanaged_service(self, service_type: Seq<char>, address: usize) -> Self {
        RegistrationBuilderView {
            storage: if address == 0 {
                ServiceStorage::Absent
            } else {
                ServiceStorage::Unmanaged { address }
            },
            service_type,
            ..self
        }.with_service_name_if_not_set(service_type)
    }

    pub open spec fn with_version(self, version: Seq<char>) -> Self {
        RegistrationBuilderView { service_version: version, ..self }
    }

    pub open spec fn with_properties(self, properties: Map<Seq<char>, Seq<char>>) -> Self {
        RegistrationBuilderView { service_properties: properties, ..self }
    }

    pub open spec fn with_property(self, key: Seq<char>, value: Seq<char>) -> Self {
        RegistrationBuilderView {
            service_properties: self.service_properties.insert(key, value),
            ..self
        }
    }

    pub open spec fn with_register_async(self, asynchronous: bool) -> Self {
        RegistrationBuilderView { register_async: asynchronous, ..self }
    }

    pub open spec fn with_unregister_async(self, asynchronous: bool) -> Self {
        RegistrationBuilderView { unregister_async: asynchronous, ..self }
    }

    /// What stands in the way of publishing: the name first, then the
    /// object, then the texts.
    pub open spec fn problems(self) -> Seq<RegistrationProblem> {
        let name = if self.service_name.len() == 0 {
            seq![RegistrationProblem::EmptyServiceName]
        } else {
            Seq::empty()
        };
        let instance = if !self.storage.is_present() {
            seq![RegistrationProblem::NoInstance]
        } else {
            Seq::empty()
        };
        let texts = if !self.is_encodable() {
            seq![RegistrationProblem::ZeroByteInText]
        } else {
            Seq::empty()
        };
        name + instance + texts
    }

    /// A builder is valid if it has a name and an object.
    pub open spec fn is_valid(self) -> bool {
        self.service_name.len() > 0 && self.storage.is_present()
    }

    /// The texts that go to the runtime can be handed over whole: neither
    /// the name, nor the version, nor a key or a value of the properties
    /// holds a zero byte.
    pub open spec fn is_encodable(self) -> bool {
        &&& encodable(self.service_name)
        &&& encodable(self.service_version)
        &&& encodable_pairs(self.service_properties)
    }

    /// A builder can publish if it is valid and its texts can be handed to
    /// the runtime.
    pub open spec fn can_publish(self) -> bool {
        self.is_valid() && self.is_encodable()
    }

    /// The call that publishes what the builder describes. An empty version
    /// is no version.
    pub open spec fn request(self) -> RegistrationRequestView {
        RegistrationRequestView {
            connection: self.connection,
            svc: self.storage.address(),
            service_type: self.service_type,
            service_name: self.service_name,
            service_version: if self.service_version.len() == 0 {
                None
            } else {
                Some(self.service_version)
            },
            properties: self.service_properties,
            asynchronous: self.register_async,
        }
    }

    /// The registration that the identifier `service_id` stands for.
    pub open spec fn registration(self, service_id: i64) -> RegistrationView<S> {
        RegistrationView {
            service_id,
            weak_ctx: ContextRef { connection: self.connection },
            service_name: self.service_name,
            storage: self.storage,
            unregister_async: self.unregister_async,
        }
    }

    /// The builder after a registration was handed out.
    pub open spec fn after_complete(self) -> Self {
        RegistrationBuilderView { storage: self.storage.after_take(), ..self }
    }
}

/// Configures and validates the publication of one service.
pub struct ServiceRegistrationBuilder<'a, S> {
    ctx: &'a BundleContextImpl,
    storage: ServiceStorage<S>,
    service_type: String,
    service_name: String,
    service_version: String,
    service_properties: Properties,
    register_async: bool,
    unregister_async: bool,
}

impl<'a, S> View for ServiceRegistrationBuilder<'a, S> {
    type V = RegistrationBuilderView<S>;

    closed spec fn view(&self) -> RegistrationBuilderView<S> {
        RegistrationBuilderView {
            connection: self.ctx.connection(),
            storage: self.storage,
            service_type: self.service_type@,
            service_name: self.service_name@,
            service_version: self.service_version@,
            service_properties: self.service_properties@,
            register_async: self.register_async,
            unregister_async: self.unregister_async,
        }
    }
}

impl<'a, S> ServiceRegistrationBuilder<'a, S> {
    /// A builder on the context `ctx`, with nothing supplied yet.
    pub fn new(ctx: &'a BundleContextImpl) -> (builder: Self)
        ensures
            builder@ == RegistrationBuilderView::<S>::fresh(ctx.connection()),
    {
        ServiceRegistrationBuilder {
            ctx,
            storage: ServiceStorage::Absent,
            service_type: String::new(),
            service_name: String::new(),
            service_version: String::new(),
            service_properties: Properties::new(),
            register_async: false,
            unregister_async: false,
        }
    }

    /// Names the service.
    pub fn with_service_name(&mut self, name: &str) -> (ret: &mut Self)
        ensures
            (*ret)@ == old(self)@.with_service_name(name@),
            *final(self) == *final(ret),
    {
        self.service_name = name.to_string();
        self
    }

    fn with_service_name_if_not_set(&mut self, name: &str) -> (ret: &mut Self)
        ensures
            (*ret)@ == old(self)@.with_service_name_if_not_set(name@),
            *final(self) == *final(ret),
    {
        if self.service_name.as_str().is_empty() {
            self.service_name = name.to_string();
        }
        self
    }

    /// Supplies an object that the registration will own. `address` is where
    /// its pinned storage stands, which is never null; `service_type` is the
    /// canonical name of its type, which names the service unless a name was
    /// set.
    pub fn with_service(&mut self, service_type: &str, svc: S, address: usize) -> (ret: &mut Self)
        requires
            address != 0,
        ensures
            (*ret)@ == old(self)@.with_service(service_type@, svc, address),
            *final(self) == *final(ret),
    {
        self.storage = ServiceStorage::Owned { object: svc, address };
        self.service_type = service_type.to_string();
        self.with_service_name_if_not_set(service_type)
    }

    /// Supplies an object that stays with the caller, by its address. A null
    /// address supplies nothing.
    pub fn with_unmanaged_service(&mut self, service_type: &str, svc: usize) -> (ret: &mut Self)
        ensures
            (*ret)@ == old(self)@.with_unmanaged_service(service_type@, svc),
            *final(self) == *final(ret),
    {
        if svc == 0 {
            self.storage = ServiceStorage::Absent;
        } else {
            self.storage = ServiceStorage::Unmanaged { address: svc };
        }
        self.service_type = service_type.to_string();
        self.with_service_name_if_not_set(service_type)
    }

    /// Sets the version of the service. An empty version is no version.
    pub fn with_version(&mut self, version: &str) -> (ret: &mut Self)
        ensures
            (*ret)@ == old(self)@.with_version(version@),
            *final(self) == *final(ret),
    {
        self.service_version = version.to_string();
        self
    }

    /// Replaces the properties of the service.
    pub fn with_properties(&mut self, properties: Properties) -> (ret: &mut Self)
        ensures
            (*ret)@ == old(self)@.with_properties(properties@),
            *final(self) == *final(ret),
    {
        self.service_properties = properties;
        self
    }

    /// Sets one property. A key that is set twice keeps the later value.
    pub fn with_property(&mut self, key: &str, value: &str) -> (ret: &mut Self)
        ensures
            (*ret)@ == old(self)@.with_property(key@, value@),
            *final(self) == *final(ret),
    {
        self.service_properties.set(key, value);
        self
    }

    /// Asks for a registration that returns once the request is accepted.
    pub fn with_register_async(&mut self) -> (ret: &mut Self)
        ensures
            (*ret)@ == old(self)@.with_register_async(true),
            *final(self) == *final(ret),
    {
        self.register_async = true;
        self
    }

    /// Asks for a registration that returns once the service is published.
    pub fn with_register_sync(&mut self) -> (ret: &mut Self)
        ensures
            (*ret)@ == old(self)@.with_register_async(false),
            *final(self) == *final(ret),
    {
        self.register_async = false;
        self
    }

    /// Asks for a release that returns once the request is accepted.
    pub fn with_unregister_async(&mut self) -> (ret: &mut Self)
        ensures
            (*ret)@ == old(self)@.with_unregister_async(true),
            *final(self) == *final(ret),
    {
        self.unregister_async = true;
        self
    }

    /// Asks for a release that returns once the service has left the
    /// registry.
    pub fn with_unregister_sync(&mut self) -> (ret: &mut Self)
        ensures
            (*ret)@ == old(self)@.with_unregister_async(false),
            *final(self) == *final(ret),
    {
        self.unregister_async = false;
        self
    }

    /// Whether an object was supplied.
    pub fn has_instance(&self) -> (present: bool)
        ensures
            present == self@.storage.is_present(),
    {
        match &self.storage {
            ServiceStorage::Owned { object, address } => *address != 0,
            ServiceStorage::Unmanaged { address } => *address != 0,
            ServiceStorage::Absent => false,
        }
    }

    /// Whether every text that goes to the runtime can be handed over whole.
    pub fn is_encodable(&self) -> (whole: bool)
        ensures
            whole == self@.is_encodable(),
    {
        is_encodable(self.service_name.as_str()) && is_encodable(self.service_version.as_str())
            && self.service_properties.is_encodable()
    }

    /// Lists what stands in the way of publishing.
    pub fn problems(&self) -> (found: Vec<RegistrationProblem>)
        ensures
            found@ == self@.problems(),
    {
        let mut found: Vec<RegistrationProblem> = Vec::new();
        if self.service_name.as_str().is_empty() {
            found.push(RegistrationProblem::EmptyServiceName);
        }
        if !self.has_instance() {
            found.push(RegistrationProblem::NoInstance);
        }
        if !self.is_encodable() {
            found.push(RegistrationProblem::ZeroByteInText);
        }
        assert(found@ =~= self@.problems());
        found
    }

    /// Fails with the bundle exception exactly if the service has no name or
    /// no object.
    pub fn validate(&self) -> (outcome: Result<(), Error>)
        ensures
            outcome == if self@.is_valid() {
                Ok::<(), Error>(())
            } else {
                Err::<(), Error>(Error::BundleException)
            },
    {
        let mut valid = true;
        if self.service_name.as_str().is_empty() {
            valid = false;
        }
        if !self.has_instance() {
            valid = false;
        }
        if valid {
            Ok(())
        } else {
            Err(Error::BundleException)
        }
    }

    /// The address to hand to the registry: that of the owned object's
    /// storage, or the caller's. It is never null.
    pub fn get_c_svc(&self) -> (address: usize)
        requires
            self@.storage.is_present(),
        ensures
            address == self@.storage.address(),
            address != 0,
    {
        match &self.storage {
            ServiceStorage::Owned { object, address } => *address,
            ServiceStorage::Unmanaged { address } => *address,
            ServiceStorage::Absent => 0,
        }
    }

    /// Validates the builder and describes the call that publishes the
    /// service. Fails with the bundle exception exactly if the service has no
    /// name or no object, or if its name, its version, or a key or a value of
    /// its properties holds a zero byte, which the runtime could not be
    /// given. The builder is the same afterwards either way.
    pub fn build(&self) -> (outcome: Result<RegistrationRequest, Error>)
        ensures
            match outcome {
                Ok(request) => self@.can_publish() && request@ == self@.request(),
                Err(e) => !self@.can_publish() && e == Error::BundleException,
            },
    {
        match self.validate() {
            Err(e) => Err(e),
            Ok(_) => {
                if !self.is_encodable() {
                    return Err(Error::BundleException);
                }
                let svc = self.get_c_svc();
                let service_version = if self.service_version.as_str().is_empty() {
                    None
                } else {
                    Some(self.service_version.clone())
                };
                Ok(
                    RegistrationRequest {
                        connection: self.ctx.get_c_bundle_context(),
                        svc,
                        service_type: self.service_type.clone(),
                        service_name: self.service_name.clone(),
                        service_version,
                        properties: self.service_properties.clone(),
                        asynchronous: self.register_async,
                    },
                )
            },
        }
    }

    /// Takes the runtime's answer to the request. A non-negative identifier
    /// of a builder that can publish gives the registration, which from now
    /// on owns the object if the builder owned it. A negative identifier is
    /// a rejection: it gives the bundle exception, and the builder keeps
    /// what it has. So does a builder that cannot publish, whatever the
    /// identifier.
    pub fn complete(&mut self, service_id: i64) -> (outcome: Result<ServiceRegistration<S>, Error>)
        ensures
            match outcome {
                Ok(registration) => {
                    &&& service_id >= 0
                    &&& old(self)@.can_publish()
                    &&& registration@ == old(self)@.registration(service_id)
                    &&& final(self)@ == old(self)@.after_complete()
                },
                Err(e) => {
                    &&& !(service_id >= 0 && old(self)@.can_publish())
                    &&& e == Error::BundleException
                    &&& final(self)@ == old(self)@
                },
            },
    {
        if service_id < 0 {
            return Err(Error::BundleException);
        }
        match self.validate() {
            Err(e) => Err(e),
            Ok(_) => {
                if !self.is_encodable() {
                    return Err(Error::BundleException);
                }
                let mut storage: ServiceStorage<S> = ServiceStorage::Absent;
                match &self.storage {
                    ServiceStorage::Unmanaged { address } => {
                        storage = ServiceStorage::Unmanaged { address: *address };
                    },
                    _ => {
                        std::mem::swap(&mut self.storage, &mut storage);
                    },
                }
                Ok(
                    ServiceRegistration {
                        service_id,
                        weak_ctx: self.ctx.get_self(),
                        service_name: self.service_name.clone(),
                        storage,
                        unregister_async: self.unregister_async,
                    },
                )
            },
        }
    }
}

/// One step of releasing a registration.
pub enum ReleaseStep<S> {
    /// Take the service out of the registry.
    Unregister(UnregisterRequest),
    /// The context is gone, and the registry's side with it: make no call,
    /// and report that none was made.
    ReportContextGone,
    /// Drop the storage of the owned object.
    DropStorage(S),
}

/// Mathematical view of a `ServiceRegistration`.
pub struct RegistrationView<S> {
    pub service_id: i64,
    pub weak_ctx: ContextRef,
    pub service_name: Seq<char>,
    pub storage: ServiceStorage<S>,
    pub unregister_async: bool,
}

impl<S> RegistrationView<S> {
    /// Whether the service is still published under this handle.
    pub open spec fn is_registered(self) -> bool {
        self.service_id >= 0
    }

    /// The steps of a release, in the order in which they are performed.
    /// `context` is the connection of the issuing context if it is still
    /// there. A handle that was released before has nothing left to do.
    pub open spec fn release_steps(self, context: Option<usize>) -> Seq<ReleaseStep<S>> {
        if !self.is_registered() {
            Seq::empty()
        } else {
            let first = match context {
                Some(connection) => ReleaseStep::Unregister(
                    UnregisterRequest {
                        connection,
                        service_id: self.service_id,
                        asynchronous: self.unregister_async,
                    },
                ),
                None => ReleaseStep::ReportContextGone,
            };
            match self.storage {
                ServiceStorage::Owned { object, address } => seq![
                    first,
                    ReleaseStep::DropStorage(object),
                ],
                _ => seq![first],
            }
        }
    }

    /// The handle after a release: marked inactive, and without storage.
    pub open spec fn released(self) -> Self {
        if !self.is_registered() {
            self
        } else {
            RegistrationView { service_id: INACTIVE_ID, storage: ServiceStorage::Absent, ..self }
        }
    }
}

/// The handle of one published service. It keeps an owned object alive until
/// it is released.
pub struct ServiceRegistration<S> {
    service_id: i64,
    weak_ctx: ContextRef,
    service_name: String,
    storage: ServiceStorage<S>,
    unregister_async: bool,
}

impl<S> View for ServiceRegistration<S> {
    type V = RegistrationView<S>;

    closed spec fn view(&self) -> RegistrationView<S> {
        RegistrationView {
            service_id: self.service_id,
            weak_ctx: self.weak_ctx,
            service_name: self.service_name@,
            storage: self.storage,
            unregister_async: self.unregister_async,
        }
    }
}

impl<S> ServiceRegistration<S> {
    /// The identifier that the registry assigned, or `INACTIVE_ID` after a
    /// release.
    pub fn service_id(&self) -> (id: i64)
        ensures
            id == self@.service_id,
    {
        self.service_id
    }

    /// The name under which the service was published.
    pub fn service_name(&self) -> (name: &str)
        ensures
            name@ == self@.service_name,
    {
        self.service_name.as_str()
    }

    /// The back-reference to the context that issued the handle.
    pub fn context(&self) -> (weak: ContextRef)
        ensures
            weak == self@.weak_ctx,
    {
        self.weak_ctx
    }

    /// Whether the service is still published under this handle.
    pub fn is_registered(&self) -> (registered: bool)
        ensures
            registered == self@.is_registered(),
    {
        self.service_id >= 0
    }

    /// The address that was handed to the registry, or null after a release.
    pub fn address(&self) -> (address: usize)
        ensures
            address == self@.storage.address(),
    {
        match &self.storage {
            ServiceStorage::Owned { object, address } => *address,
            ServiceStorage::Unmanaged { address } => *address,
            ServiceStorage::Absent => 0,
        }
    }

    /// Releases the registration and returns the steps to perform, in order.
    /// `ctx` is the issuing context if resolving the back-reference found it.
    /// The first release asks the registry to drop the service, or reports
    /// that the context is gone, and then gives up the owned object. Every
    /// later release does nothing.
    pub fn release(&mut self, ctx: Option<&BundleContextImpl>) -> (steps: Vec<ReleaseStep<S>>)
        ensures
            steps@ == old(self)@.release_steps(resolved(ctx)),
            final(self)@ == old(self)@.released(),
    {
        let mut steps: Vec<ReleaseStep<S>> = Vec::new();
        if self.service_id < 0 {
            return steps;
        }
        match ctx {
            Some(found) => {
                steps.push(
                    ReleaseStep::Unregister(
                        found.unregister_service(self.service_id, self.unregister_async),
                    ),
                );
            },
            None => {
                steps.push(ReleaseStep::ReportContextGone);
            },
        }
        let mut storage: ServiceStorage<S> = ServiceStorage::Absent;
        std::mem::swap(&mut self.storage, &mut storage);
        match storage {
            ServiceStorage::Owned { object, address } => {
                steps.push(ReleaseStep::DropStorage(object));
            },
            _ => {},
        }
        self.service_id = INACTIVE_ID;
        assert(steps@ =~= old(self)@.release_steps(resolved(ctx)));
        steps
    }
}

/// A registration unregisters at most once: the release of a handle that was
/// released before has no step at all, whatever became of the context in
/// between, and leaves the handle as it is.
pub proof fn lemma_release_once<S>(
    registration: RegistrationView<S>,
    first: Option<usize>,
    second: Option<usize>,
)
    ensures
        registration.released().release_steps(second) == Seq::<ReleaseStep<S>>::empty(),
        registration.released().released() == registration.released(),
        !registration.released().is_registered(),
        registration.release_steps(first).len() <= 2,
        forall|i: int|
            0 < i < registration.release_steps(first).len() ==> !(
            #[trigger] registration.release_steps(first)[i] is Unregister),
{
}

/// The service leaves the registry before its storage is dropped: a step
/// that drops storage is the second of two, and it drops the object that the
/// handle owned, after the step that settles the registry's side.
pub proof fn lemma_unregister_before_drop<S>(
    registration: RegistrationView<S>,
    context: Option<usize>,
    i: int,
)
    requires
        0 <= i < registration.release_steps(context).len(),
        registration.release_steps(context)[i] is DropStorage,
    ensures
        i == 1,
        registration.storage is Owned,
        registration.release_steps(context)[i] == ReleaseStep::DropStorage(
            registration.storage->object,
        ),
        context is Some ==> registration.release_steps(context)[0] is Unregister,
        context is None ==> registration.release_steps(context)[0] is ReportContextGone,
{
}

/// A builder without a name, or without an object, is not valid and cannot
/// publish; a builder can publish exactly if nothing stands in its way.
pub proof fn lemma_publish_needs_name_and_instance<S>(builder: RegistrationBuilderView<S>)
    ensures
        builder.service_name.len() == 0 ==> !builder.is_valid(),
        builder.storage is Absent ==> !builder.is_valid(),
        !builder.is_valid() ==> !builder.can_publish(),
        builder.can_publish() <==> builder.problems().len() == 0,
        !RegistrationBuilderView::<S>::fresh(builder.connection).is_valid(),
{
}

/// A text with a zero byte keeps a builder from publishing, wherever it
/// stands: in the name, in the version, or in a key or a value of the
/// properties.
pub proof fn lemma_zero_byte_is_refused<S>(
    builder: RegistrationBuilderView<S>,
    key: Seq<char>,
    value: Seq<char>,
)
    ensures
        !encodable(builder.service_name) ==> !builder.can_publish(),
        !encodable(builder.service_version) ==> !builder.can_publish(),
        !encodable(key) || !encodable(value) ==> !builder.with_property(key, value).can_publish(),
{
    let added = builder.with_property(key, value);
    assert(added.service_properties.contains_key(key));
    assert(added.service_properties[key] == value);
}

/// The published object is observed where it was supplied: the address that
/// the registry is given is the address that came with the object, in both
/// storage modes, the registration reports the same address, and a callback
/// written against the object's type is invoked with the object.
pub proof fn lemma_published_address<S>(
    builder: RegistrationBuilderView<S>,
    service_type: Seq<char>,
    object: S,
    address: usize,
    service_id: i64,
)
    requires
        address != 0,
    ensures
        builder.with_service(service_type, object, address).request().service()
            == (ServiceRefView { address, service_type }),
        builder.with_service(service_type, object, address).storage.is_present(),
        builder.with_service(service_type, object, address).registration(
            service_id,
        ).storage.address() == address,
        builder.with_service(service_type, object, address).registration(service_id).storage
            == (ServiceStorage::Owned { object, address }),
        builder.with_unmanaged_service(service_type, address).request().service()
            == (ServiceRefView { address, service_type }),
        accepts_spec(
            Some(service_type),
            builder.with_service(service_type, object, address).request().service(),
        ),
{
}

/// Properties reach the registry as they were set: the request of a builder
/// holds, after one more property, the builder's mapping with that key set,
/// and for a fresh builder exactly that one pair.
pub proof fn lemma_properties_round_trip<S>(
    builder: RegistrationBuilderView<S>,
    key: Seq<char>,
    value: Seq<char>,
)
    ensures
        builder.with_property(key, value).request().properties
            == builder.service_properties.insert(key, value),
        builder.with_property(key, value).request().properties[key] == value,
        RegistrationBuilderView::<S>::fresh(builder.connection).with_property(
            key,
            value,
        ).request().properties =~= map![key => value],
{
}

} // verus!
