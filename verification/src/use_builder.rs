//! Using services once: the builder of a query, and the query itself.
//!
//! A query names a service, optionally narrows it by a filter, and carries
//! one callback. The runtime finds the matches and offers them one by one;
//! for each, the query decides whether its callback is invoked. The runtime
//! then reports how many services it offered, and the query turns that
//! report into its result.

use vstd::prelude::*;
use crate::bridge::accepts_spec;
use crate::bridge::Callback;
use crate::bridge::CallbackView;
use crate::bridge::ServiceRef;
use crate::bundle_context::BundleContextImpl;
use crate::encoding::encodable;
use crate::encoding::is_encodable;
use crate::errno::Error;

verus! {

/// The call that uses services, with the callback that it will reach.
pub struct UseRequest<C> {
    pub connection: usize,
    pub many: bool,
    pub service_name: String,
    pub filter: Option<String>,
    pub callback: Callback<C>,
}

/// Mathematical view of a `UseRequest`.
pub struct UseRequestView<C> {
    pub connection: usize,
    pub many: bool,
    pub service_name: Seq<char>,
    pub filter: Option<Seq<char>>,
    pub callback: CallbackView<C>,
}

impl<C> View for UseRequest<C> {
    type V = UseRequestView<C>;

    open spec fn view(&self) -> UseRequestView<C> {
        UseRequestView {
            connection: self.connection,
            many: self.many,
            service_name: self.service_name@,
            filter: match self.filter {
                Some(filter) => Some(filter@),
                None => None,
            },
            callback: self.callback@,
        }
    }
}

/// What the runtime reports when its use call returns.
#[derive(Debug, Clone, Copy, PartialEq, Eq, Structural)]
pub enum UseOutcome {
    /// Answer to a query for one service: whether one was offered.
    Called(bool),
    /// Answer to a query for many services: how many were offered.
    Count(usize),
}

/// The number of services that a query has used, as it reports it: 0 or 1 for
/// one service, the count for many. A count beyond the largest result is
/// reported as the largest result.
pub open spec fn use_result(outcome: UseOutcome) -> isize {
    match outcome {
        UseOutcome::Called(called) => if called {
            1
        } else {
            0
        },
        UseOutcome::Count(count) => if count <= isize::MAX {
            count as isize
        } else {
            isize::MAX
        },
    }
}

/// How many of `offered` matches a query uses: all of them if it asks for
/// many, else the first.
pub open spec fn used_count(many: bool, offered: nat) -> nat {
    if many || offered == 0 {
        offered
    } else {
        1
    }
}

/// What the runtime reports for a query that was offered `offered` matches.
pub open spec fn outcome_of(many: bool, offered: usize) -> UseOutcome {
    if many {
        UseOutcome::Count(offered)
    } else {
        UseOutcome::Called(offered > 0)
    }
}

/// The positions, among the first `used` services offered, of those that the
/// callback is invoked with, in the order of the invocations.
pub open spec fn invocations(
    expected: Option<Seq<char>>,
    offered: Seq<ServiceRef>,
    used: nat,
) -> Seq<usize>
    recommends
        used <= offered.len(),
    decreases used,
{
    if used == 0 {
        Seq::empty()
    } else {
        let before = invocations(expected, offered, (used - 1) as nat);
        if accepts_spec(expected, offered[used - 1]@) {
            before.push((used - 1) as usize)
        } else {
            before
        }
    }
}

/// What one run of a query over the matches did.
#[derive(Debug)]
pub struct UseReport {
    /// The positions of the offered services that the callback was invoked
    /// with, in order.
    pub invoked: Vec<usize>,
    /// The number of services used, as the query returns it.
    pub count: isize,
}

impl<C> UseRequest<C> {
    /// The function to invoke for one service that the runtime offers, or
    /// `None` if the service is of another type than the callback expects and
    /// is passed over.
    pub fn deliver(&self, svc: &ServiceRef) -> (target: Option<&C>)
        ensures
            target == if accepts_spec(self@.callback.expected, svc@) {
                Some(&self.callback.handle)
            } else {
                None
            },
    {
        self.callback.deliver(svc)
    }

    /// Turns the runtime's report into the result of the query.
    pub fn finish(&self, outcome: UseOutcome) -> (count: isize)
        ensures
            count == use_result(outcome),
    {
        match outcome {
            UseOutcome::Called(called) => if called {
                1
            } else {
                0
            },
            UseOutcome::Count(count) => if count <= isize::MAX as usize {
                count as isize
            } else {
                isize::MAX
            },
        }
    }

    /// Runs the query over the matches that a registry found, best match
    /// first: a query for many uses all of them, a query for one uses the
    /// first. Reports which of them the callback is invoked with, and the
    /// result of the query.
    pub fn use_all(&self, offered: &Vec<ServiceRef>) -> (report: UseReport)
        ensures
            report.invoked@ == invocations(
                self@.callback.expected,
                offered@,
                used_count(self.many, offered@.len()),
            ),
            report.count == use_result(outcome_of(self.many, offered.len())),
    {
        let used: usize = if self.many || offered.len() == 0 {
            offered.len()
        } else {
            1
        };
        let mut invoked: Vec<usize> = Vec::new();
        let mut i: usize = 0;
        while i < used
            invariant
                i <= used <= offered@.len(),
                invoked@ == invocations(self@.callback.expected, offered@, i as nat),
            decreases used - i,
        {
            if self.callback.expected.accepts(&offered[i]) {
                invoked.push(i);
            }
            i = i + 1;
        }
        let outcome = if self.many {
            UseOutcome::Count(offered.len())
        } else {
            UseOutcome::Called(offered.len() > 0)
        };
        UseReport { invoked, count: self.finish(outcome) }
    }
}

/// Mathematical view of a `ServiceUseBuilder`.
pub struct UseBuilderView<C> {
    pub connection: usize,
    pub many: bool,
    pub service_name: Seq<char>,
    pub filter: Seq<char>,
    pub callback: Option<CallbackView<C>>,
}

impl<C> UseBuilderView<C> {
    /// A builder to which nothing was supplied yet.
    pub open spec fn fresh(connection: usize, many: bool) -> Self {
        UseBuilderView {
            connection,
            many,
            service_name: Seq::empty(),
            filter: Seq::empty(),
            callback: None,
        }
    }

    pub open spec fn with_service(self, service_type: Seq<char>) -> Self {
        UseBuilderView { service_name: service_type, ..self }
    }

    pub open spec fn with_service_name(self, name: Seq<char>) -> Self {
        UseBuilderView { service_name: name, ..self }
    }

    pub open spec fn with_filter(self, filter: Seq<char>) -> Self {
        UseBuilderView { filter, ..self }
    }

    /// The callback expects `service_type`, which also names the service
    /// unless a name was set.
    pub open spec fn with_callback(self, service_type: Seq<char>, handle: C) -> Self {
        UseBuilderView {
            service_name: if self.service_name.len() == 0 {
                service_type
            } else {
                self.service_name
            },
            callback: Some(CallbackView { expected: Some(service_type), handle }),
            ..self
        }
    }

    pub open spec fn with_any_callback(self, handle: C) -> Self {
        UseBuilderView { callback: Some(CallbackView { expected: None, handle }), ..self }
    }

    /// A query is valid if it has a callback and a service name.
    pub open spec fn is_valid(self) -> bool {
        self.callback is Some && self.service_name.len() > 0
    }

    /// The texts that go to the runtime can be handed over whole: neither
    /// the service name nor the filter holds a zero byte.
    pub open spec fn is_encodable(self) -> bool {
        encodable(self.service_name) && encodable(self.filter)
    }

    /// A query can be made if it is valid and its texts can be handed to the
    /// runtime.
    pub open spec fn can_use(self) -> bool {
        self.is_valid() && self.is_encodable()
    }

    /// The call that the builder describes. An empty filter is no filter.
    pub open spec fn request(self) -> UseRequestView<C>
        recommends
            self.is_valid(),
    {
        UseRequestView {
            connection: self.connection,
            many: self.many,
            service_name: self.service_name,
            filter: if self.filter.len() == 0 {
                None
            } else {
                Some(self.filter)
            },
            callback: self.callback->0,
        }
    }

    /// The builder after its callback went into a request.
    pub open spec fn after_build(self) -> Self {
        UseBuilderView { callback: None, ..self }
    }
}

/// Configures and validates one query.
pub struct ServiceUseBuilder<'a, C> {
    ctx: &'a BundleContextImpl,
    many: bool,
    service_name: String,
    filter: String,
    callback: Option<Callback<C>>,
}

impl<'a, C> View for ServiceUseBuilder<'a, C> {
    type V = UseBuilderView<C>;

    closed spec fn view(&self) -> UseBuilderView<C> {
        UseBuilderView {
            connection: self.ctx.connection(),
            many: self.many,
            service_name: self.service_name@,
            filter: self.filter@,
            callback: match self.callback {
                Some(callback) => Some(callback@),
                None => None,
            },
        }
    }
}

impl<'a, C> ServiceUseBuilder<'a, C> {
    /// A builder on the context `ctx`, for one match or for many.
    pub fn new(ctx: &'a BundleContextImpl, many: bool) -> (builder: Self)
        ensures
            builder@ == UseBuilderView::<C>::fresh(ctx.connection(), many),
    {
        ServiceUseBuilder {
            ctx,
            many,
            service_name: String::new(),
            filter: String::new(),
            callback: None,
        }
    }

    /// Names the service after the canonical name of its type.
    pub fn with_service(&mut self, service_type: &str) -> (ret: &mut Self)
        ensures
            (*ret)@ == old(self)@.with_service(service_type@),
            *final(self) == *final(ret),
    {
        self.service_name = service_type.to_string();
        self
    }

    /// Supplies a callback written against the type named `service_type`. A
    /// matched service of another type is passed over. The type also names
    /// the service unless a name was set.
    pub fn with_callback(&mut self, service_type: &str, closure: C) -> (ret: &mut Self)
        ensures
            (*ret)@ == old(self)@.with_callback(service_type@, closure),
            *final(self) == *final(ret),
    {
        if self.service_name.as_str().is_empty() {
            self.service_name = service_type.to_string();
        }
        self.callback = Some(Callback::typed(service_type, closure));
        self
    }

    /// Supplies a callback that takes the erased service of any type and
    /// narrows it itself.
    pub fn with_any_callback(&mut self, closure: C) -> (ret: &mut Self)
        ensures
            (*ret)@ == old(self)@.with_any_callback(closure),
            *final(self) == *final(ret),
    {
        self.callback = Some(Callback::any(closure));
        self
    }

    /// Names the service.
    pub fn with_service_name(&mut self, name: &str) -> (ret: &mut Self)
        ensures
            (*ret)@ == old(self)@.with_service_name(name@),
            *final(self) == *final(ret),
    {
        self.service_name = name.to_string();
        self
    }

    /// Narrows the matches by a filter expression. An empty filter is no
    /// filter.
    pub fn with_filter(&mut self, filter: &str) -> (ret: &mut Self)
        ensures
            (*ret)@ == old(self)@.with_filter(filter@),
            *final(self) == *final(ret),
    {
        self.filter = filter.to_string();
        self
    }

    /// Fails with the bundle exception exactly if the query has no callback
    /// or no service name.
    pub fn validate(&self) -> (outcome: Result<(), Error>)
        ensures
            outcome == if self@.is_valid() {
                Ok::<(), Error>(())
            } else {
                Err::<(), Error>(Error::BundleException)
            },
    {
        if self.callback.is_none() || self.service_name.as_str().is_empty() {
            return Err(Error::BundleException);
        }
        Ok(())
    }

    /// Whether the service name and the filter can be handed to the runtime
    /// whole.
    pub fn is_encodable(&self) -> (whole: bool)
        ensures
            whole == self@.is_encodable(),
    {
        is_encodable(self.service_name.as_str()) && is_encodable(self.filter.as_str())
    }

    /// Validates the builder and describes the call that uses the services.
    /// Fails with the bundle exception exactly if the query has no callback
    /// or no service name, or if the service name or the filter holds a zero
    /// byte, which the runtime could not be given; it then leaves the
    /// builder as it is. Otherwise the callback moves into the request and
    /// the builder is left without one.
    pub fn build(&mut self) -> (outcome: Result<UseRequest<C>, Error>)
        ensures
            match outcome {
                Ok(request) => {
                    &&& old(self)@.can_use()
                    &&& request@ == old(self)@.request()
                    &&& final(self)@ == old(self)@.after_build()
                },
                Err(e) => {
                    &&& !old(self)@.can_use()
                    &&& e == Error::BundleException
                    &&& final(self)@ == old(self)@
                },
            },
    {
        match self.validate() {
            Err(e) => Err(e),
            Ok(_) => {
                if !self.is_encodable() {
                    return Err(Error::BundleException);
                }
                let filter = if self.filter.as_str().is_empty() {
                    None
                } else {
                    Some(self.filter.clone())
                };
                let callback = self.callback.take().unwrap();
                Ok(
                    UseRequest {
                        connection: self.ctx.get_c_bundle_context(),
                        many: self.many,
                        service_name: self.service_name.clone(),
                        filter,
                        callback,
                    },
                )
            },
        }
    }
}

/// A query cannot be made without a callback or without a service name,
/// nor with a zero byte in the service name or in the filter.
pub proof fn lemma_use_needs_callback_name_and_texts<C>(builder: UseBuilderView<C>)
    ensures
        builder.callback is None ==> !builder.can_use(),
        builder.service_name.len() == 0 ==> !builder.can_use(),
        !encodable(builder.service_name) ==> !builder.can_use(),
        !encodable(builder.filter) ==> !builder.can_use(),
{
}

/// The callback is invoked at most once for each service used, and only with
/// services that pass its type check, each at its own position.
pub proof fn lemma_invocations_sound(
    expected: Option<Seq<char>>,
    offered: Seq<ServiceRef>,
    used: nat,
)
    requires
        used <= offered.len(),
        used <= usize::MAX,
    ensures
        invocations(expected, offered, used).len() <= used,
        forall|k: int|
            0 <= k < invocations(expected, offered, used).len() ==> {
                let position = #[trigger] invocations(expected, offered, used)[k];
                &&& position < used
                &&& accepts_spec(expected, offered[position as int]@)
            },
        forall|j: int, k: int|
            0 <= j < k < invocations(expected, offered, used).len() ==> invocations(
                expected,
                offered,
                used,
            )[j] < invocations(expected, offered, used)[k],
    decreases used,
{
    if used > 0 {
        let before = invocations(expected, offered, (used - 1) as nat);
        let all = invocations(expected, offered, used);
        lemma_invocations_sound(expected, offered, (used - 1) as nat);
        assert forall|k: int| 0 <= k < all.len() implies {
            let position = #[trigger] all[k];
            &&& position < used
            &&& accepts_spec(expected, offered[position as int]@)
        } by {
            if k < before.len() {
                assert(all[k] == before[k]);
            }
        }
        assert forall|j: int, k: int| 0 <= j < k < all.len() implies all[j] < all[k] by {
            assert(all[j] == before[j]);
            if k < before.len() {
                assert(all[k] == before[k]);
            }
        }
    }
}

/// Where every service used passes the type check, the callback is invoked
/// once for each of them, in the order in which they were offered.
pub proof fn lemma_invocations_complete(
    expected: Option<Seq<char>>,
    offered: Seq<ServiceRef>,
    used: nat,
)
    requires
        used <= offered.len(),
        used <= usize::MAX,
        forall|i: int| 0 <= i < used ==> accepts_spec(expected, #[trigger] offered[i]@),
    ensures
        invocations(expected, offered, used).len() == used,
        forall|k: int|
            0 <= k < used ==> #[trigger] invocations(expected, offered, used)[k] == k,
    decreases used,
{
    if used > 0 {
        lemma_invocations_complete(expected, offered, (used - 1) as nat);
        assert(accepts_spec(expected, offered[used - 1]@));
    }
}

/// A query for many services that finds N matches of the expected type
/// invokes its callback N times and returns N. A query that finds no match
/// invokes nothing and returns 0, whether it asks for one service or many.
pub proof fn lemma_use_counts(
    many: bool,
    expected: Option<Seq<char>>,
    offered: Seq<ServiceRef>,
)
    requires
        offered.len() <= isize::MAX,
        forall|i: int| 0 <= i < offered.len() ==> accepts_spec(expected, #[trigger] offered[i]@),
    ensures
        many ==> invocations(expected, offered, used_count(many, offered.len())).len()
            == offered.len(),
        many ==> use_result(outcome_of(many, offered.len() as usize)) == offered.len(),
        !many && offered.len() > 0 ==> invocations(
            expected,
            offered,
            used_count(many, offered.len()),
        ) == seq![0usize],
        !many && offered.len() > 0 ==> use_result(outcome_of(many, offered.len() as usize)) == 1,
        offered.len() == 0 ==> invocations(expected, offered, used_count(many, offered.len()))
            == Seq::<usize>::empty(),
        offered.len() == 0 ==> use_result(outcome_of(many, offered.len() as usize)) == 0,
{
    lemma_invocations_complete(expected, offered, used_count(many, offered.len()));
    if !many && offered.len() > 0 {
        assert(invocations(expected, offered, 1) =~= seq![0usize]);
    }
}

} // verus!
