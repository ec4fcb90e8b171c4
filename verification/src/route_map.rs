//! The keyed route storage of a collection: a hash map from an outside crate,
//! reached through trusted wrappers whose contracts speak of the map's
//! abstract contents.

use vstd::prelude::*;
use crate::outbound::OutboundRoute;
use crate::routes::{GroupKindNamespaceName, HttpRouteMatch};

verus! {

#[verifier::external_type_specification]
#[verifier::external_body]
#[verifier::reject_recursive_types(K)]
#[verifier::reject_recursive_types(V)]
#[verifier::reject_recursive_types(S)]
pub struct ExAHashMap<K, V, S>(ahash::AHashMap<K, V, S>);

#[verifier::external_type_specification]
#[verifier::external_body]
pub struct ExAHashRandomState(ahash::RandomState);

/// The storage behind one protocol arm of a route collection.
pub type RouteMap =
    ahash::AHashMap<GroupKindNamespaceName, OutboundRoute<HttpRouteMatch>, ahash::RandomState>;

/// The entries a route map holds, as a mathematical map keyed by the route
/// identity.
pub uninterp spec fn route_map_model(
    m: RouteMap,
) -> Map<GroupKindNamespaceName, OutboundRoute<HttpRouteMatch>>;

/// The contents of a route map that holds nothing.
pub open spec fn empty_routes() -> Map<GroupKindNamespaceName, OutboundRoute<HttpRouteMatch>> {
    Map::empty()
}

/// Relies on ahash::AHashMap::default: a freshly built map holds no entries.
#[verifier::external_body]
pub(crate) fn route_map_new() -> (m: RouteMap)
    ensures
        route_map_model(m) == empty_routes(),
{
    ahash::AHashMap::default()
}

/// Relies on ahash::AHashMap::insert, a delegation to std's HashMap::insert:
/// the value is stored under the key and the previous value at that key, if
/// one was present, is returned. Structurally equal keys coincide because the
/// key type derives Eq and Hash.
#[verifier::external_body]
pub(crate) fn route_map_insert(
    m: &mut RouteMap,
    key: GroupKindNamespaceName,
    route: OutboundRoute<HttpRouteMatch>,
) -> (prior: Option<OutboundRoute<HttpRouteMatch>>)
    ensures
        route_map_model(*final(m)) == route_map_model(*old(m)).insert(key, route),
        route_map_model(*final(m)).dom().finite(),
        prior matches Some(p) ==> route_map_model(*old(m)).dom().contains(key)
            && p == route_map_model(*old(m))[key],
        prior is None ==> !route_map_model(*old(m)).dom().contains(key),
{
    m.insert(key, route)
}

/// Relies on ahash::AHashMap::remove, a delegation to std's HashMap::remove:
/// the entry under the key, if one was present, is taken out and returned.
#[verifier::external_body]
pub(crate) fn route_map_remove(
    m: &mut RouteMap,
    key: &GroupKindNamespaceName,
) -> (prior: Option<OutboundRoute<HttpRouteMatch>>)
    ensures
        route_map_model(*final(m)) == route_map_model(*old(m)).remove(*key),
        route_map_model(*final(m)).dom().finite(),
        prior matches Some(p) ==> route_map_model(*old(m)).dom().contains(*key)
            && p == route_map_model(*old(m))[*key],
        prior is None ==> !route_map_model(*old(m)).dom().contains(*key),
{
    m.remove(key)
}

/// Relies on std's HashMap::is_empty, reached through AHashMap's Deref:
/// true exactly when the map holds no entries.
#[verifier::external_body]
pub(crate) fn route_map_is_empty(m: &RouteMap) -> (r: bool)
    ensures
        r <==> route_map_model(*m) == empty_routes(),
{
    m.is_empty()
}

/// Relies on ahash::AHashMap::get, a delegation to std's HashMap::get: the
/// value under the key is returned exactly when one is present.
#[verifier::external_body]
pub(crate) fn route_map_get<'a>(
    m: &'a RouteMap,
    key: &GroupKindNamespaceName,
) -> (r: Option<&'a OutboundRoute<HttpRouteMatch>>)
    ensures
        r matches Some(route) ==> route_map_model(*m).dom().contains(*key)
            && *route == route_map_model(*m)[*key],
        r is None ==> !route_map_model(*m).dom().contains(*key),
{
    m.get(key)
}

/// Relies on std's HashMap::clone, reached through the derived Clone of
/// ahash::AHashMap: the copy holds the same entries.
#[verifier::external_body]
pub(crate) fn route_map_clone(m: &RouteMap) -> (r: RouteMap)
    ensures
        route_map_model(r) == route_map_model(*m),
{
    m.clone()
}

} // verus!
