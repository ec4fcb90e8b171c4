//! Identities of route resources and the match and filter definitions that
//! route rules carry.

use vstd::prelude::*;
use crate::units::Fraction;

verus! {

/// The (group, kind, namespace, name) tuple naming the configuration resource
/// a route was derived from; the key of a route collection.
#[derive(Clone, Debug, PartialEq, Eq, Hash)]
pub struct GroupKindNamespaceName {
    pub group: String,
    pub kind: String,
    pub namespace: String,
    pub name: String,
}

/// A hostname predicate: an exact name or a suffix of labels.
#[derive(Clone, Debug, PartialEq, Eq)]
pub enum HostMatch {
    Exact(String),
    Suffix(Vec<String>),
}

/// A path predicate of an HTTP route match.
#[derive(Clone, Debug, PartialEq, Eq)]
pub enum PathMatch {
    Exact(String),
    Prefix(String),
    Regex(String),
}

/// A header predicate: name paired with an exact value or a pattern.
#[derive(Clone, Debug, PartialEq, Eq)]
pub enum HeaderMatch {
    Exact(String, String),
    Regex(String, String),
}

/// A query-parameter predicate: name paired with an exact value or a pattern.
#[derive(Clone, Debug, PartialEq, Eq)]
pub enum QueryParamMatch {
    Exact(String, String),
    Regex(String, String),
}

/// The predicates of one HTTP route match; first-match-wins semantics are
/// owned by the caller.
#[derive(Clone, Debug, PartialEq, Eq)]
pub struct HttpRouteMatch {
    pub path: Option<PathMatch>,
    pub headers: Vec<HeaderMatch>,
    pub query_params: Vec<QueryParamMatch>,
    pub method: Option<String>,
}

/// Header additions, replacements and removals applied to a request or a
/// response.
#[derive(Clone, Debug, PartialEq, Eq)]
pub struct HeaderModifierFilter {
    pub add: Vec<(String, String)>,
    pub set: Vec<(String, String)>,
    pub remove: Vec<String>,
}

/// A redirect returned in place of forwarding the request.
#[derive(Clone, Debug, PartialEq, Eq)]
pub struct RequestRedirectFilter {
    pub scheme: Option<String>,
    pub authority: Option<String>,
    pub path: Option<String>,
    pub port: Option<u16>,
    pub status: Option<u16>,
}

impl RequestRedirectFilter {
    /// A redirect port, when given, is positive.
    pub open spec fn wf(self) -> bool {
        self.port matches Some(p) ==> p >= 1
    }
}

/// A fault injected into a fraction of matching requests.
#[derive(Clone, Debug, PartialEq, Eq)]
pub struct FailureInjectorFilter {
    pub status: u16,
    pub message: String,
    pub ratio: Fraction,
}

impl FailureInjectorFilter {
    /// The injection ratio is a proper fraction in [0, 1].
    pub open spec fn wf(self) -> bool {
        self.ratio.wf() && self.ratio.is_unit()
    }
}

} // verus!
