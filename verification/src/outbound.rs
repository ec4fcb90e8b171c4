//! Outbound routes, the per-destination route collection, and the policy
//! snapshot.

use vstd::prelude::*;
use crate::net::IpAddr;
use crate::route_map::{
    empty_routes, route_map_clone, route_map_get, route_map_insert, route_map_is_empty,
    route_map_model, route_map_new, route_map_remove, RouteMap,
};
use crate::routes::{GroupKindNamespaceName, HostMatch, HttpRouteMatch};
use crate::units::{Duration, Fraction, Timestamp};

verus! {

/// A weighted routable destination: a direct address, a named service, or an
/// unresolved placeholder kept so the route stays resolvable.
#[derive(Clone, Debug, PartialEq, Eq)]
pub enum Backend {
    Addr(WeightedAddr),
    Service(WeightedService),
    Invalid { weight: u32, message: String },
}

impl Backend {
    pub open spec fn wf(self) -> bool {
        match self {
            Backend::Addr(a) => a.wf(),
            Backend::Service(s) => s.wf(),
            Backend::Invalid { .. } => true,
        }
    }
}

/// A direct address with a traffic weight.
#[derive(Clone, Debug, PartialEq, Eq)]
pub struct WeightedAddr {
    pub weight: u32,
    pub addr: IpAddr,
    pub port: u16,
}

impl WeightedAddr {
    /// The port is positive.
    pub open spec fn wf(self) -> bool {
        self.port >= 1
    }
}

/// A named service reference with a traffic weight; carries its own filters
/// and a flag saying whether the referenced service exists.
#[derive(Clone, Debug, PartialEq, Eq)]
pub struct WeightedService {
    pub weight: u32,
    pub authority: String,
    pub name: String,
    pub namespace: String,
    pub port: u16,
    pub filters: Vec<Filter>,
    pub service_exists: bool,
}

impl WeightedService {
    /// The port is positive and every filter is well formed.
    pub open spec fn wf(self) -> bool {
        self.port >= 1 && (forall|i: int|
            0 <= i < self.filters@.len() ==> #[trigger] self.filters@[i].wf())
    }
}

/// A request/response transformation attached to a route rule.
#[derive(Clone, Debug, PartialEq, Eq)]
pub enum Filter {
    RequestHeaderModifier(crate::routes::HeaderModifierFilter),
    ResponseHeaderModifier(crate::routes::HeaderModifierFilter),
    RequestRedirect(crate::routes::RequestRedirectFilter),
    FailureInjector(crate::routes::FailureInjectorFilter),
}

impl Filter {
    pub open spec fn wf(self) -> bool {
        match self {
            Filter::RequestHeaderModifier(_) => true,
            Filter::ResponseHeaderModifier(_) => true,
            Filter::RequestRedirect(r) => r.wf(),
            Filter::FailureInjector(f) => f.wf(),
        }
    }
}

/// Passive circuit breaking: eject a backend after consecutive failures,
/// with a bounded, jittered backoff.
#[derive(Clone, Copy, Debug, PartialEq)]
pub enum FailureAccrual {
    Consecutive { max_failures: u32, backoff: Backoff },
}

impl FailureAccrual {
    pub open spec fn wf(self) -> bool {
        match self {
            FailureAccrual::Consecutive { backoff, .. } => backoff.wf(),
        }
    }
}

/// A bounded, jittered backoff: the minimum penalty never exceeds the
/// maximum, and the jitter is a fraction in [0, 1].
#[derive(Clone, Copy, Debug, PartialEq)]
pub struct Backoff {
    pub min_penalty: Duration,
    pub max_penalty: Duration,
    pub jitter: Fraction,
}

impl Backoff {
    pub open spec fn wf(self) -> bool {
        &&& self.min_penalty.wf()
        &&& self.max_penalty.wf()
        &&& self.min_penalty.as_nanos() <= self.max_penalty.as_nanos()
        &&& self.jitter.wf()
        &&& self.jitter.is_unit()
    }

    /// Builds a backoff, rejecting a minimum penalty above the maximum and a
    /// jitter outside [0, 1].
    pub fn new(min_penalty: Duration, max_penalty: Duration, jitter: Fraction) -> (r: Option<
        Backoff,
    >)
        requires
            min_penalty.wf(),
            max_penalty.wf(),
        ensures
            r matches Some(b) ==> b.wf() && b == (Backoff { min_penalty, max_penalty, jitter }),
            r is Some <==> min_penalty.as_nanos() <= max_penalty.as_nanos() && jitter.wf()
                && jitter.is_unit(),
    {
        if min_penalty.le(&max_penalty) && jitter.denominator > 0
            && jitter.numerator <= jitter.denominator {
            Some(Backoff { min_penalty, max_penalty, jitter })
        } else {
            None
        }
    }
}

/// An ordered rule of a route: match predicates, weighted backends, timeouts,
/// and filters applied in sequence.
#[derive(Clone, Debug, PartialEq, Eq)]
pub struct OutboundRouteRule<MatchType> {
    pub matches: Vec<MatchType>,
    pub backends: Vec<Backend>,
    pub request_timeout: Option<Duration>,
    pub backend_request_timeout: Option<Duration>,
    pub filters: Vec<Filter>,
}

impl<MatchType> OutboundRouteRule<MatchType> {
    pub open spec fn wf(self) -> bool {
        &&& (self.request_timeout matches Some(t) ==> t.wf())
        &&& (self.backend_request_timeout matches Some(t) ==> t.wf())
        &&& (forall|i: int| 0 <= i < self.backends@.len() ==> #[trigger] self.backends@[i].wf())
        &&& (forall|i: int| 0 <= i < self.filters@.len() ==> #[trigger] self.filters@[i].wf())
    }
}

/// Hostnames, ordered rules, and the creation time by which returned routes
/// are ordered deterministically.
#[derive(Clone, Debug, PartialEq, Eq)]
pub struct OutboundRoute<MatchType> {
    pub hostnames: Vec<HostMatch>,
    pub rules: Vec<OutboundRouteRule<MatchType>>,
    pub creation_timestamp: Option<Timestamp>,
}

impl<MatchType> OutboundRoute<MatchType> {
    pub open spec fn wf(self) -> bool {
        &&& (self.creation_timestamp matches Some(t) ==> t.wf())
        &&& (forall|i: int| 0 <= i < self.rules@.len() ==> #[trigger] self.rules@[i].wf())
    }
}

/// A route tagged with its protocol kind.
#[derive(Clone, Debug, PartialEq, Eq)]
pub enum TypedOutboundRoute {
    Http(OutboundRoute<HttpRouteMatch>),
}

impl TypedOutboundRoute {
    /// The route under the tag.
    pub open spec fn route(self) -> OutboundRoute<HttpRouteMatch> {
        match self {
            TypedOutboundRoute::Http(route) => route,
        }
    }

    pub open spec fn wf(self) -> bool {
        self.route().wf()
    }
}

impl From<OutboundRoute<HttpRouteMatch>> for TypedOutboundRoute {
    fn from(route: OutboundRoute<HttpRouteMatch>) -> (r: Self) {
        TypedOutboundRoute::Http(route)
    }
}

impl vstd::std_specs::convert::FromSpecImpl<OutboundRoute<HttpRouteMatch>> for TypedOutboundRoute {
    open spec fn obeys_from_spec() -> bool {
        true
    }

    open spec fn from_spec(route: OutboundRoute<HttpRouteMatch>) -> Self {
        TypedOutboundRoute::Http(route)
    }
}

/// A conflict between the protocol kind of an inserted route and the kind a
/// collection already holds. Unreachable while only one protocol kind exists;
/// the insert result keeps room for it.
#[derive(Clone, Debug, PartialEq, Eq)]
pub struct MergeError {
    pub message: String,
}

/// All routes for one destination: a type-tagged union that is `Empty` exactly
/// when no route is held, so emptiness is a single tag comparison.
#[derive(Debug, PartialEq)]
pub enum OutboundRouteCollection {
    Empty,
    Http(RouteMap),
}

impl OutboundRouteCollection {
    /// The entries of the active variant, as one mathematical map; `Empty`
    /// holds nothing.
    pub open spec fn model(self) -> Map<GroupKindNamespaceName, OutboundRoute<HttpRouteMatch>> {
        match self {
            OutboundRouteCollection::Empty => Map::empty(),
            OutboundRouteCollection::Http(routes) => route_map_model(routes),
        }
    }

    /// Canonical emptiness: a variant's map is never empty, so the value is
    /// `Empty` exactly when no route is held.
    pub open spec fn wf(self) -> bool {
        match self {
            OutboundRouteCollection::Empty => true,
            OutboundRouteCollection::Http(routes) => route_map_model(routes).dom().finite()
                && route_map_model(routes) != empty_routes(),
        }
    }

    /// Every route held is well formed.
    pub open spec fn all_routes_wf(self) -> bool {
        forall|k: GroupKindNamespaceName|
            self.model().dom().contains(k) ==> (#[trigger] self.model()[k]).wf()
    }

    /// True exactly when the collection is the `Empty` tag; under canonical
    /// emptiness, exactly when no route is held.
    pub fn is_empty(&self) -> (r: bool)
        ensures
            r == (self is Empty),
            self.wf() ==> (r <==> self.model() == empty_routes()),
    {
        matches!(self, OutboundRouteCollection::Empty)
    }

    /// The route under a key, when one is held.
    pub fn get(&self, key: &GroupKindNamespaceName) -> (r: Option<
        &OutboundRoute<HttpRouteMatch>,
    >)
        ensures
            r matches Some(route) ==> self.model().dom().contains(*key)
                && *route == self.model()[*key],
            r is None ==> !self.model().dom().contains(*key),
    {
        match self {
            OutboundRouteCollection::Empty => None,
            OutboundRouteCollection::Http(routes) => route_map_get(routes, key),
        }
    }

    /// Deletes `key` if present; a variant whose map becomes empty is demoted
    /// to `Empty`, so emptiness stays answerable in constant time.
    pub fn remove(&mut self, key: &GroupKindNamespaceName)
        requires
            old(self).wf(),
        ensures
            final(self).wf(),
            final(self).model() == old(self).model().remove(*key),
            old(self).all_routes_wf() ==> final(self).all_routes_wf(),
    {
        match self {
            OutboundRouteCollection::Empty => {
                assert(old(self).model().remove(*key) =~= old(self).model());
            },
            OutboundRouteCollection::Http(routes) => {
                route_map_remove(routes, key);
                if route_map_is_empty(routes) {
                    *self = OutboundRouteCollection::Empty;
                }
            },
        }
        proof {
            lemma_remove_keeps_routes_wf(old(self).model(), self.model(), *key);
        }
    }

    /// Merges a route into the collection under `key`. An `Empty` collection
    /// allocates the variant matching the route's kind; a non-empty one merges
    /// into the existing map. Returns the previous value at `key` when one
    /// existed (an update rather than a fresh add), else none. With a single
    /// protocol kind every combination is handled, so the result is always
    /// `Ok`.
    pub fn insert(&mut self, key: GroupKindNamespaceName, route: TypedOutboundRoute) -> (r: Result<
        Option<TypedOutboundRoute>,
        MergeError,
    >)
        requires
            old(self).wf(),
        ensures
            final(self).wf(),
            r is Ok,
            final(self).model() == old(self).model().insert(key, route.route()),
            r matches Ok(prior) ==> (prior is Some <==> old(self).model().dom().contains(key)),
            r matches Ok(prior) ==> (old(self).model().dom().contains(key) ==> prior == Some(
                TypedOutboundRoute::Http(old(self).model()[key]),
            )),
            old(self).all_routes_wf() && route.wf() ==> final(self).all_routes_wf(),
    {
        let TypedOutboundRoute::Http(http_route) = route;
        let prior = match self {
            OutboundRouteCollection::Empty => {
                let mut routes = route_map_new();
                let prior = route_map_insert(&mut routes, key, http_route);
                *self = OutboundRouteCollection::Http(routes);
                prior
            },
            OutboundRouteCollection::Http(routes) => route_map_insert(routes, key, http_route),
        };
        proof {
            assert(self.model().dom().contains(key));
            lemma_insert_keeps_routes_wf(old(self).model(), self.model(), key, route.route());
        }
        Ok(
            match prior {
                Some(p) => Some(TypedOutboundRoute::Http(p)),
                None => None,
            },
        )
    }
}

impl Default for OutboundRouteCollection {
    /// A collection starts out `Empty`.
    fn default() -> (r: Self)
        ensures
            r == OutboundRouteCollection::Empty,
    {
        OutboundRouteCollection::Empty
    }
}

impl Clone for OutboundRouteCollection {
    /// The copy holds the same routes.
    fn clone(&self) -> (r: Self)
        ensures
            r.model() == self.model(),
            r.wf() == self.wf(),
    {
        match self {
            OutboundRouteCollection::Empty => OutboundRouteCollection::Empty,
            OutboundRouteCollection::Http(routes) => OutboundRouteCollection::Http(
                route_map_clone(routes),
            ),
        }
    }
}

/// The full policy snapshot for a destination: identity, port, opacity flag,
/// accrual policy, and the destination's route collection.
#[derive(Clone, Debug, PartialEq)]
pub struct OutboundPolicy {
    pub routes: OutboundRouteCollection,
    pub authority: String,
    pub name: String,
    pub namespace: String,
    pub port: u16,
    pub opaque: bool,
    pub accrual: Option<FailureAccrual>,
}

impl OutboundPolicy {
    /// A complete, self-consistent snapshot: positive port, canonical route
    /// collection holding well-formed routes, and a well-formed accrual
    /// policy when one is set.
    pub open spec fn wf(self) -> bool {
        &&& self.port >= 1
        &&& self.routes.wf()
        &&& self.routes.all_routes_wf()
        &&& (self.accrual matches Some(a) ==> a.wf())
    }
}

/// Removing a key keeps every remaining route well formed.
proof fn lemma_remove_keeps_routes_wf(
    before: Map<GroupKindNamespaceName, OutboundRoute<HttpRouteMatch>>,
    after: Map<GroupKindNamespaceName, OutboundRoute<HttpRouteMatch>>,
    key: GroupKindNamespaceName,
)
    requires
        after == before.remove(key),
    ensures
        (forall|k: GroupKindNamespaceName|
            before.dom().contains(k) ==> (#[trigger] before[k]).wf()) ==> (forall|
            k: GroupKindNamespaceName,
        |
            after.dom().contains(k) ==> (#[trigger] after[k]).wf()),
{
    if forall|k: GroupKindNamespaceName| before.dom().contains(k) ==> (#[trigger] before[k]).wf() {
        assert forall|k: GroupKindNamespaceName|
            after.dom().contains(k) implies (#[trigger] after[k]).wf() by {
            assert(before.dom().contains(k));
            assert(after[k] == before[k]);
        }
    }
}

/// Inserting a well-formed route keeps every held route well formed.
proof fn lemma_insert_keeps_routes_wf(
    before: Map<GroupKindNamespaceName, OutboundRoute<HttpRouteMatch>>,
    after: Map<GroupKindNamespaceName, OutboundRoute<HttpRouteMatch>>,
    key: GroupKindNamespaceName,
    route: OutboundRoute<HttpRouteMatch>,
)
    requires
        after == before.insert(key, route),
    ensures
        ((forall|k: GroupKindNamespaceName|
            before.dom().contains(k) ==> (#[trigger] before[k]).wf()) && route.wf()) ==> (forall|
            k: GroupKindNamespaceName,
        |
            after.dom().contains(k) ==> (#[trigger] after[k]).wf()),
{
    if (forall|k: GroupKindNamespaceName|
        before.dom().contains(k) ==> (#[trigger] before[k]).wf()) && route.wf() {
        assert forall|k: GroupKindNamespaceName|
            after.dom().contains(k) implies (#[trigger] after[k]).wf() by {
            if k == key {
                assert(after[k] == route);
            } else {
                assert(before.dom().contains(k));
                assert(after[k] == before[k]);
            }
        }
    }
}

/// A well-formed collection is the `Empty` tag exactly when it holds no
/// routes: emptiness never hides behind a non-empty variant, nor does a
/// variant ever hold an empty map.
pub proof fn lemma_empty_iff_no_routes(c: OutboundRouteCollection)
    requires
        c.wf(),
    ensures
        (c is Empty) <==> c.model() == empty_routes(),
{
}

/// Inserting a sole key into an empty collection and then removing it
/// restores the empty contents, which under canonical emptiness is the
/// `Empty` tag itself.
pub proof fn lemma_insert_remove_round_trip(
    key: GroupKindNamespaceName,
    route: OutboundRoute<HttpRouteMatch>,
)
    ensures
        empty_routes().insert(key, route).remove(key) == empty_routes(),
{
    assert(empty_routes().insert(key, route).remove(key) =~= empty_routes());
}

/// Any well-formed consecutive-failure accrual policy has a bounded, properly
/// jittered backoff: the minimum penalty never exceeds the maximum, and the
/// jitter is a fraction in [0, 1].
pub proof fn lemma_consecutive_accrual_bounds(a: FailureAccrual)
    requires
        a.wf(),
    ensures
        a matches FailureAccrual::Consecutive { backoff, .. }
            ==> backoff.min_penalty.as_nanos() <= backoff.max_penalty.as_nanos()
            && backoff.jitter.numerator <= backoff.jitter.denominator,
{
}

} // verus!

