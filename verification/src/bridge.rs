//! The bridge between typed callbacks and the untyped services that the
//! runtime hands out.
//!
//! The runtime knows a service only by an address. A callback is written
//! against a type. Before a typed callback is invoked, the type under which
//! the service was published is compared with the type that the callback
//! expects, and a service of another type is passed over. A callback of the
//! any-type flavour receives every service and narrows it itself.

use vstd::prelude::*;

verus! {

/// A published object as the runtime hands it out: the stable address of its
/// storage, and the canonical name of the type it was published as.
#[derive(Debug)]
pub struct ServiceRef {
    pub address: usize,
    pub service_type: String,
}

/// Mathematical view of a `ServiceRef`.
pub struct ServiceRefView {
    pub address: usize,
    pub service_type: Seq<char>,
}

impl View for ServiceRef {
    type V = ServiceRefView;

    open spec fn view(&self) -> ServiceRefView {
        ServiceRefView { address: self.address, service_type: self.service_type@ }
    }
}

impl ServiceRef {
    /// Describes the object at `address`, published as a `service_type`.
    pub fn new(address: usize, service_type: &str) -> (svc: Self)
        ensures
            svc@ == (ServiceRefView { address, service_type: service_type@ }),
    {
        ServiceRef { address, service_type: service_type.to_string() }
    }
}

impl Clone for ServiceRef {
    fn clone(&self) -> (copy: Self)
        ensures
            copy@ == self@,
    {
        ServiceRef { address: self.address, service_type: self.service_type.clone() }
    }
}

/// What a callback expects of a service before it is invoked.
#[derive(Debug)]
pub enum Expected {
    /// Any service is passed on, fully erased.
    Any,
    /// Only a service published under this canonical type name is passed on.
    Type(String),
}

impl View for Expected {
    type V = Option<Seq<char>>;

    /// `None` for the any-type flavour, else the expected type name.
    open spec fn view(&self) -> Option<Seq<char>> {
        match self {
            Expected::Any => None,
            Expected::Type(name) => Some(name@),
        }
    }
}

/// Whether a service passes the type check of an expectation.
pub open spec fn accepts_spec(expected: Option<Seq<char>>, svc: ServiceRefView) -> bool {
    match expected {
        None => true,
        Some(name) => name == svc.service_type,
    }
}

/// The description of the object at `address`. `published_as` is the type
/// under which it was published, where that is known. An object of unknown
/// type comes from a publisher outside this layer, and is taken to be what
/// the callback expects: the runtime vouches for it by the service name.
pub open spec fn reconstruct_spec(
    expected: Option<Seq<char>>,
    address: usize,
    published_as: Option<Seq<char>>,
) -> ServiceRefView {
    ServiceRefView {
        address,
        service_type: match published_as {
            Some(known) => known,
            None => match expected {
                Some(assumed) => assumed,
                None => Seq::empty(),
            },
        },
    }
}

/// The text behind an optional reference, as a value.
pub open spec fn text_of(text: Option<&str>) -> Option<Seq<char>> {
    match text {
        Some(text) => Some(text@),
        None => None,
    }
}

impl Expected {
    /// Reconstructs the description of a service from the address that the
    /// runtime supplies and, where it is known, the type under which the
    /// object was published.
    pub fn reconstruct(&self, address: usize, published_as: Option<&str>) -> (svc: ServiceRef)
        ensures
            svc@ == reconstruct_spec(self@, address, text_of(published_as)),
    {
        match published_as {
            Some(known) => ServiceRef::new(address, known),
            None => match self {
                Expected::Type(assumed) => ServiceRef::new(address, assumed.as_str()),
                Expected::Any => {
                    proof {
                        reveal_strlit("");
                    }
                    assert(""@ =~= Seq::<char>::empty());
                    ServiceRef::new(address, "")
                },
            },
        }
    }

    /// Checks a service against the expectation.
    pub fn accepts(&self, svc: &ServiceRef) -> (accepted: bool)
        ensures
            accepted == accepts_spec(self@, svc@),
    {
        match self {
            Expected::Any => true,
            Expected::Type(name) => *name == svc.service_type,
        }
    }
}

impl Clone for Expected {
    fn clone(&self) -> (copy: Self)
        ensures
            copy@ == self@,
    {
        match self {
            Expected::Any => Expected::Any,
            Expected::Type(name) => Expected::Type(name.clone()),
        }
    }
}

/// A callback behind the bridge: the caller's function, held as an opaque
/// value, together with what it expects of a service.
pub struct Callback<C> {
    pub expected: Expected,
    pub handle: C,
}

/// Mathematical view of a `Callback`.
pub struct CallbackView<C> {
    pub expected: Option<Seq<char>>,
    pub handle: C,
}

impl<C> View for Callback<C> {
    type V = CallbackView<C>;

    open spec fn view(&self) -> CallbackView<C> {
        CallbackView { expected: self.expected@, handle: self.handle }
    }
}

impl<C> Callback<C> {
    /// A callback written against the type named `service_type`.
    pub fn typed(service_type: &str, handle: C) -> (callback: Self)
        ensures
            callback@ == (CallbackView { expected: Some(service_type@), handle }),
    {
        Callback { expected: Expected::Type(service_type.to_string()), handle }
    }

    /// A callback that takes the erased service of any type.
    pub fn any(handle: C) -> (callback: Self)
        ensures
            callback@ == (CallbackView { expected: None, handle }),
    {
        Callback { expected: Expected::Any, handle }
    }

    /// The function to invoke for a service that the runtime offers, or
    /// `None` if the service is of another type than the callback expects.
    pub fn deliver(&self, svc: &ServiceRef) -> (target: Option<&C>)
        ensures
            target == if accepts_spec(self@.expected, svc@) {
                Some(&self.handle)
            } else {
                None
            },
    {
        if self.expected.accepts(svc) {
            Some(&self.handle)
        } else {
            None
        }
    }
}

/// An object of unknown type is never passed over, and an object of known
/// type is passed on exactly if its type is the expected one or any type is
/// taken.
pub proof fn lemma_reconstructed_is_accepted(
    expected: Option<Seq<char>>,
    address: usize,
    published_as: Option<Seq<char>>,
)
    ensures
        reconstruct_spec(expected, address, published_as).address == address,
        published_as is None ==> accepts_spec(
            expected,
            reconstruct_spec(expected, address, published_as),
        ),
        published_as is Some ==> (accepts_spec(
            expected,
            reconstruct_spec(expected, address, published_as),
        ) <==> (expected is None || expected == published_as)),
{
}

/// An any-type callback is delivered every service.
pub proof fn lemma_any_accepts_all(svc: ServiceRefView)
    ensures
        accepts_spec(None, svc),
{
}

/// A typed callback is delivered a service exactly if the service was
/// published under the type that the callback names.
pub proof fn lemma_typed_accepts_own_type(service_type: Seq<char>, svc: ServiceRefView)
    ensures
        accepts_spec(Some(service_type), svc) <==> svc.service_type == service_type,
{
}

} // verus!
