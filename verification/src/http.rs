//! The HTTP route registry and matcher: route nodes keyed by virtual host,
//! scheme class and method. Registration lazily creates the intermediate
//! tables; queries walk the fallback chain — the host-specific tree before
//! the default tree, the scheme-specific slot before the "any" slot — while
//! the method is never relaxed.
use vstd::prelude::*;

use crate::CompileError;
use crate::RouteHandle;
use crate::SchemeClass;
use crate::host_key;
use crate::node::MatchResult;
use crate::node::NodeV;
use crate::node::Params;
use crate::node::ParamsV;
use crate::node::RouteNode;
use crate::node::empty_node;
use crate::node::lemma_first_pattern_wins;
use crate::node::no_params;
use crate::node::or_else;
use crate::node::outcome_matches;
use crate::node::spec_node_add_pattern;
use crate::node::spec_node_add_static;
use crate::node::spec_node_lookup;
use crate::node::spec_pattern_lookup;
use crate::node::to_match_result;
use crate::pattern::Pattern;
use crate::pattern::params_of;
use crate::pattern::rule_compiles;
use crate::pattern::rule_is_match;
use crate::strmap::StrMap;

verus! {

/// The model of one host's HTTP tree: for each scheme class, a map from
/// method token to route node.
#[verifier::ext_equal]
pub struct HttpTreeV {
    pub any: Map<Seq<char>, NodeV>,
    pub plain: Map<Seq<char>, NodeV>,
    pub secure: Map<Seq<char>, NodeV>,
}

/// The model of the whole HTTP registry: the default (host-less) tree and
/// one tree per registered virtual host.
#[verifier::ext_equal]
pub struct HttpRouterV {
    pub nhost: HttpTreeV,
    pub whost: Map<Seq<char>, HttpTreeV>,
}

/// A tree with nothing registered.
pub open spec fn empty_http_tree() -> HttpTreeV {
    HttpTreeV { any: Map::empty(), plain: Map::empty(), secure: Map::empty() }
}

/// A registry with nothing registered.
pub open spec fn empty_http_router() -> HttpRouterV {
    HttpRouterV { nhost: empty_http_tree(), whost: Map::empty() }
}

/// The method map a scheme class selects within a tree.
pub open spec fn spec_slot(t: HttpTreeV, s: SchemeClass) -> Map<Seq<char>, NodeV> {
    match s {
        SchemeClass::Any => t.any,
        SchemeClass::Plain => t.plain,
        SchemeClass::Secure => t.secure,
    }
}

/// The tree with the method map of one scheme class replaced.
pub open spec fn spec_set_slot(t: HttpTreeV, s: SchemeClass, m: Map<Seq<char>, NodeV>) -> HttpTreeV {
    match s {
        SchemeClass::Any => HttpTreeV { any: m, plain: t.plain, secure: t.secure },
        SchemeClass::Plain => HttpTreeV { any: t.any, plain: m, secure: t.secure },
        SchemeClass::Secure => HttpTreeV { any: t.any, plain: t.plain, secure: m },
    }
}

/// The node registered under a method, or the empty node where none is yet:
/// registration materializes it lazily.
pub open spec fn spec_mmap_node(m: Map<Seq<char>, NodeV>, method: Seq<char>) -> NodeV {
    if m.contains_key(method) {
        m[method]
    } else {
        empty_node()
    }
}

/// The tree a query resolves for an optional host: the host's own tree
/// where one is registered, the default tree otherwise.
pub open spec fn spec_host_tree(r: HttpRouterV, host: Option<Seq<char>>) -> HttpTreeV {
    match host {
        None => r.nhost,
        Some(h) => if r.whost.contains_key(h) {
            r.whost[h]
        } else {
            empty_http_tree()
        },
    }
}

/// The registry with the tree of one (optional) host replaced.
pub open spec fn spec_set_host_tree(r: HttpRouterV, host: Option<Seq<char>>, t: HttpTreeV) -> HttpRouterV {
    match host {
        None => HttpRouterV { nhost: t, whost: r.whost },
        Some(h) => HttpRouterV { nhost: r.nhost, whost: r.whost.insert(h, t) },
    }
}

/// One registration step inside a tree, on the node of the given scheme
/// class and method.
pub open spec fn spec_tree_update(t: HttpTreeV, s: SchemeClass, method: Seq<char>, n: NodeV) -> HttpTreeV {
    spec_set_slot(t, s, spec_slot(t, s).insert(method, n))
}

/// Registration of an exact path.
pub open spec fn spec_add_static(
    r: HttpRouterV,
    host: Option<Seq<char>>,
    s: SchemeClass,
    method: Seq<char>,
    path: Seq<char>,
    h: RouteHandle,
) -> HttpRouterV {
    let t = spec_host_tree(r, host);
    let n = spec_mmap_node(spec_slot(t, s), method);
    spec_set_host_tree(r, host, spec_tree_update(t, s, method, spec_node_add_static(n, path, h)))
}

/// Registration of a pattern rule.
pub open spec fn spec_add_pattern(
    r: HttpRouterV,
    host: Option<Seq<char>>,
    s: SchemeClass,
    method: Seq<char>,
    rule: Seq<char>,
    h: RouteHandle,
) -> HttpRouterV {
    let t = spec_host_tree(r, host);
    let n = spec_mmap_node(spec_slot(t, s), method);
    spec_set_host_tree(r, host, spec_tree_update(t, s, method, spec_node_add_pattern(n, rule, h)))
}

/// A lookup in a method map: the method's node decides; a method with no
/// node misses. The method is never relaxed.
pub open spec fn spec_mmap_lookup(m: Map<Seq<char>, NodeV>, method: Seq<char>, path: Seq<char>) -> Option<
    (RouteHandle, ParamsV),
> {
    if m.contains_key(method) {
        spec_node_lookup(m[method], path)
    } else {
        None
    }
}

/// The scheme-fallback step within one tree: the scheme-specific slot
/// first, then the "any" slot.
pub open spec fn spec_tree_lookup(t: HttpTreeV, s: SchemeClass, method: Seq<char>, path: Seq<char>) -> Option<
    (RouteHandle, ParamsV),
> {
    or_else(spec_mmap_lookup(spec_slot(t, s), method, path), spec_mmap_lookup(t.any, method, path))
}

/// A query with no host and no scheme context: only the "any" slot of the
/// default tree is consulted.
pub open spec fn spec_match_direct(r: HttpRouterV, method: Seq<char>, path: Seq<char>) -> Option<
    (RouteHandle, ParamsV),
> {
    spec_mmap_lookup(r.nhost.any, method, path)
}

/// A scheme-qualified query without a host: the scheme fallback on the
/// default tree.
pub open spec fn spec_match_scheme(r: HttpRouterV, s: SchemeClass, method: Seq<char>, path: Seq<char>) -> Option<
    (RouteHandle, ParamsV),
> {
    spec_tree_lookup(r.nhost, s, method, path)
}

/// A host-qualified query without a scheme: the "any" slot of the resolved
/// host tree, then the "any" slot of the default tree.
pub open spec fn spec_match_host(r: HttpRouterV, host: Seq<char>, method: Seq<char>, path: Seq<char>) -> Option<
    (RouteHandle, ParamsV),
> {
    or_else(
        spec_mmap_lookup(spec_host_tree(r, Some(host)).any, method, path),
        spec_match_direct(r, method, path),
    )
}

/// A fully qualified query: the whole scheme fallback on the resolved host
/// tree and, where that misses, once more on the default tree.
pub open spec fn spec_match_all(
    r: HttpRouterV,
    host: Seq<char>,
    s: SchemeClass,
    method: Seq<char>,
    path: Seq<char>,
) -> Option<(RouteHandle, ParamsV)> {
    or_else(
        spec_tree_lookup(spec_host_tree(r, Some(host)), s, method, path),
        spec_match_scheme(r, s, method, path),
    )
}

/// A registered static route resolves in its own context: registering an
/// exact path under a host and a scheme class, then querying fully
/// qualified with that very host and scheme, returns its handle with an
/// empty parameter mapping — whatever was registered before.
pub proof fn lemma_static_route_resolves_all(
    r: HttpRouterV,
    host: Seq<char>,
    s: SchemeClass,
    method: Seq<char>,
    path: Seq<char>,
    h: RouteHandle,
)
    requires
        s != SchemeClass::Any,
    ensures
        spec_match_all(spec_add_static(r, Some(host), s, method, path, h), host, s, method, path)
            == Some((h, no_params())),
{
    let r2 = spec_add_static(r, Some(host), s, method, path, h);
    let t2 = spec_host_tree(r2, Some(host));
    assert(spec_slot(t2, s).contains_key(method));
    assert(spec_slot(t2, s)[method].statics.contains_key(path));
    assert(spec_slot(t2, s)[method].statics[path] == h);
}

/// The same, for a registration without a host and a scheme-qualified
/// query: the default tree's scheme slot serves it.
pub proof fn lemma_static_route_resolves_scheme(
    r: HttpRouterV,
    s: SchemeClass,
    method: Seq<char>,
    path: Seq<char>,
    h: RouteHandle,
)
    requires
        s != SchemeClass::Any,
    ensures
        spec_match_scheme(spec_add_static(r, None, s, method, path, h), s, method, path) == Some(
            (h, no_params()),
        ),
{
    let r2 = spec_add_static(r, None, s, method, path, h);
    assert(spec_slot(r2.nhost, s).contains_key(method));
    assert(spec_slot(r2.nhost, s)[method].statics.contains_key(path));
}

/// The same, for a registration under the "any" scheme class without a
/// host and a direct query.
pub proof fn lemma_static_route_resolves_direct(
    r: HttpRouterV,
    method: Seq<char>,
    path: Seq<char>,
    h: RouteHandle,
)
    ensures
        spec_match_direct(spec_add_static(r, None, SchemeClass::Any, method, path, h), method, path)
            == Some((h, no_params())),
{
    let r2 = spec_add_static(r, None, SchemeClass::Any, method, path, h);
    assert(r2.nhost.any.contains_key(method));
    assert(r2.nhost.any[method].statics.contains_key(path));
}

/// The same, for a registration under a host and the "any" scheme class
/// and a host-qualified query.
pub proof fn lemma_static_route_resolves_host(
    r: HttpRouterV,
    host: Seq<char>,
    method: Seq<char>,
    path: Seq<char>,
    h: RouteHandle,
)
    ensures
        spec_match_host(
            spec_add_static(r, Some(host), SchemeClass::Any, method, path, h),
            host,
            method,
            path,
        ) == Some((h, no_params())),
{
    let r2 = spec_add_static(r, Some(host), SchemeClass::Any, method, path, h);
    let t2 = spec_host_tree(r2, Some(host));
    assert(t2.any.contains_key(method));
    assert(t2.any[method].statics.contains_key(path));
}

/// One registration step leaves every other method's lookups untouched,
/// within one tree.
proof fn lemma_tree_update_other_method(
    t: HttpTreeV,
    s: SchemeClass,
    m1: Seq<char>,
    n: NodeV,
    qs: SchemeClass,
    m2: Seq<char>,
    path: Seq<char>,
)
    requires
        m1 != m2,
    ensures
        spec_tree_lookup(spec_tree_update(t, s, m1, n), qs, m2, path) == spec_tree_lookup(
            t,
            qs,
            m2,
            path,
        ),
        spec_mmap_lookup(spec_tree_update(t, s, m1, n).any, m2, path) == spec_mmap_lookup(
            t.any,
            m2,
            path,
        ),
{
}

/// Method isolation: a query for one method only ever consults that
/// method's nodes, so a static registration under a different method
/// changes no query outcome, on any entry point.
pub proof fn lemma_method_isolation_static(
    r: HttpRouterV,
    host: Option<Seq<char>>,
    s: SchemeClass,
    m1: Seq<char>,
    path: Seq<char>,
    h: RouteHandle,
    qhost: Seq<char>,
    qs: SchemeClass,
    m2: Seq<char>,
    qpath: Seq<char>,
)
    requires
        m1 != m2,
    ensures
        ({
            let r2 = spec_add_static(r, host, s, m1, path, h);
            &&& spec_match_direct(r2, m2, qpath) == spec_match_direct(r, m2, qpath)
            &&& spec_match_scheme(r2, qs, m2, qpath) == spec_match_scheme(r, qs, m2, qpath)
            &&& spec_match_host(r2, qhost, m2, qpath) == spec_match_host(r, qhost, m2, qpath)
            &&& spec_match_all(r2, qhost, qs, m2, qpath) == spec_match_all(r, qhost, qs, m2, qpath)
        }),
{
    let t = spec_host_tree(r, host);
    let n = spec_node_add_static(spec_mmap_node(spec_slot(t, s), m1), path, h);
    lemma_registration_other_method(r, host, s, m1, n, qhost, qs, m2, qpath);
}

/// Method isolation for pattern registration, on any entry point.
pub proof fn lemma_method_isolation_pattern(
    r: HttpRouterV,
    host: Option<Seq<char>>,
    s: SchemeClass,
    m1: Seq<char>,
    rule: Seq<char>,
    h: RouteHandle,
    qhost: Seq<char>,
    qs: SchemeClass,
    m2: Seq<char>,
    qpath: Seq<char>,
)
    requires
        m1 != m2,
    ensures
        ({
            let r2 = spec_add_pattern(r, host, s, m1, rule, h);
            &&& spec_match_direct(r2, m2, qpath) == spec_match_direct(r, m2, qpath)
            &&& spec_match_scheme(r2, qs, m2, qpath) == spec_match_scheme(r, qs, m2, qpath)
            &&& spec_match_host(r2, qhost, m2, qpath) == spec_match_host(r, qhost, m2, qpath)
            &&& spec_match_all(r2, qhost, qs, m2, qpath) == spec_match_all(r, qhost, qs, m2, qpath)
        }),
{
    let t = spec_host_tree(r, host);
    let n = spec_node_add_pattern(spec_mmap_node(spec_slot(t, s), m1), rule, h);
    lemma_registration_other_method(r, host, s, m1, n, qhost, qs, m2, qpath);
}

/// Any single registration, of either kind, replaces one node under one
/// method; queries for another method see the registry unchanged.
proof fn lemma_registration_other_method(
    r: HttpRouterV,
    host: Option<Seq<char>>,
    s: SchemeClass,
    m1: Seq<char>,
    n: NodeV,
    qhost: Seq<char>,
    qs: SchemeClass,
    m2: Seq<char>,
    qpath: Seq<char>,
)
    requires
        m1 != m2,
    ensures
        ({
            let r2 = spec_set_host_tree(r, host, spec_tree_update(spec_host_tree(r, host), s, m1, n));
            &&& spec_match_direct(r2, m2, qpath) == spec_match_direct(r, m2, qpath)
            &&& spec_match_scheme(r2, qs, m2, qpath) == spec_match_scheme(r, qs, m2, qpath)
            &&& spec_match_host(r2, qhost, m2, qpath) == spec_match_host(r, qhost, m2, qpath)
            &&& spec_match_all(r2, qhost, qs, m2, qpath) == spec_match_all(r, qhost, qs, m2, qpath)
        }),
{
    let t = spec_host_tree(r, host);
    let t2 = spec_tree_update(t, s, m1, n);
    let r2 = spec_set_host_tree(r, host, t2);
    lemma_tree_update_other_method(t, s, m1, n, qs, m2, qpath);
    match host {
        None => {
            assert(r2.nhost == t2);
        },
        Some(hh) => {
            assert(r2.nhost == r.nhost);
            if qhost == hh {
                assert(spec_host_tree(r2, Some(qhost)) == t2);
                if !r.whost.contains_key(hh) {
                    assert(spec_host_tree(r, Some(qhost)) == empty_http_tree());
                    assert(spec_mmap_lookup(empty_http_tree().any, m2, qpath) is None);
                    assert(spec_tree_lookup(empty_http_tree(), qs, m2, qpath) is None);
                }
            } else {
                assert(spec_host_tree(r2, Some(qhost)) == spec_host_tree(r, Some(qhost)));
            }
        },
    }
}

/// First-registered pattern wins, seen from a query: registering two
/// pattern rules in the same host-less context, both matching a path that
/// the node's static table and earlier patterns miss, a scheme-qualified
/// query for that path returns the handle registered with the first rule.
pub proof fn lemma_pattern_priority_scheme(
    r: HttpRouterV,
    s: SchemeClass,
    method: Seq<char>,
    r1: Seq<char>,
    h1: RouteHandle,
    r2: Seq<char>,
    h2: RouteHandle,
    path: Seq<char>,
)
    requires
        ({
            let n = spec_mmap_node(spec_slot(r.nhost, s), method);
            &&& !n.statics.contains_key(path)
            &&& spec_pattern_lookup(n.patterns, path) is None
            &&& rule_is_match(r1, path)
            &&& rule_is_match(r2, path)
        }),
    ensures
        spec_match_scheme(
            spec_add_pattern(spec_add_pattern(r, None, s, method, r1, h1), None, s, method, r2, h2),
            s,
            method,
            path,
        ) == Some((h1, params_of(r1, path))),
{
    let n = spec_mmap_node(spec_slot(r.nhost, s), method);
    let ra = spec_add_pattern(r, None, s, method, r1, h1);
    let rb = spec_add_pattern(ra, None, s, method, r2, h2);
    assert(spec_mmap_node(spec_slot(ra.nhost, s), method) == spec_node_add_pattern(n, r1, h1));
    assert(spec_mmap_node(spec_slot(rb.nhost, s), method) == spec_node_add_pattern(
        spec_node_add_pattern(n, r1, h1),
        r2,
        h2,
    ));
    lemma_first_pattern_wins(n, r1, h1, r2, h2, path);
}

/// Scheme fallback: where the scheme-specific slot holds no match for the
/// method and path, the query returns exactly what the "any" slot holds.
pub proof fn lemma_scheme_fallback(t: HttpTreeV, s: SchemeClass, method: Seq<char>, path: Seq<char>)
    requires
        spec_mmap_lookup(spec_slot(t, s), method, path) is None,
    ensures
        spec_tree_lookup(t, s, method, path) == spec_mmap_lookup(t.any, method, path),
{
}

/// A route registered under the "any" scheme class only is still resolved
/// by a query qualified with a specific scheme, through the scheme
/// fallback.
pub proof fn lemma_any_scheme_route_resolves(
    r: HttpRouterV,
    s: SchemeClass,
    method: Seq<char>,
    path: Seq<char>,
    h: RouteHandle,
)
    requires
        s != SchemeClass::Any,
        spec_mmap_lookup(spec_slot(r.nhost, s), method, path) is None,
    ensures
        spec_match_scheme(spec_add_static(r, None, SchemeClass::Any, method, path, h), s, method, path)
            == Some((h, no_params())),
{
    let r2 = spec_add_static(r, None, SchemeClass::Any, method, path, h);
    assert(spec_slot(r2.nhost, s) == spec_slot(r.nhost, s));
    assert(r2.nhost.any.contains_key(method));
    assert(r2.nhost.any[method].statics.contains_key(path));
}

/// Host fallback: a query naming a host with no registered tree returns
/// exactly what the corresponding host-less query returns.
pub proof fn lemma_host_fallback(
    r: HttpRouterV,
    host: Seq<char>,
    s: SchemeClass,
    method: Seq<char>,
    path: Seq<char>,
)
    requires
        !r.whost.contains_key(host),
    ensures
        spec_match_all(r, host, s, method, path) == spec_match_scheme(r, s, method, path),
        spec_match_host(r, host, method, path) == spec_match_direct(r, method, path),
{
    assert(spec_host_tree(r, Some(host)) == empty_http_tree());
    assert(spec_mmap_lookup(empty_http_tree().any, method, path) is None);
    assert(spec_tree_lookup(empty_http_tree(), s, method, path) is None);
}

/// Any query against the empty registry misses, on every entry point.
pub proof fn lemma_empty_registry_no_match(
    host: Seq<char>,
    s: SchemeClass,
    method: Seq<char>,
    path: Seq<char>,
)
    ensures
        spec_match_direct(empty_http_router(), method, path) is None,
        spec_match_scheme(empty_http_router(), s, method, path) is None,
        spec_match_host(empty_http_router(), host, method, path) is None,
        spec_match_all(empty_http_router(), host, s, method, path) is None,
{
    assert(spec_mmap_lookup(empty_http_tree().any, method, path) is None);
}

/// Registering the same static path twice in the same context leaves only
/// the second handle resolvable there, with a fully qualified query.
pub proof fn lemma_static_replace_all(
    r: HttpRouterV,
    host: Seq<char>,
    s: SchemeClass,
    method: Seq<char>,
    path: Seq<char>,
    h1: RouteHandle,
    h2: RouteHandle,
)
    requires
        s != SchemeClass::Any,
    ensures
        spec_match_all(
            spec_add_static(spec_add_static(r, Some(host), s, method, path, h1), Some(host), s, method, path, h2),
            host,
            s,
            method,
            path,
        ) == Some((h2, no_params())),
{
    lemma_static_route_resolves_all(
        spec_add_static(r, Some(host), s, method, path, h1),
        host,
        s,
        method,
        path,
        h2,
    );
}

/// The same, for host-less registrations and a scheme-qualified query.
pub proof fn lemma_static_replace_scheme(
    r: HttpRouterV,
    s: SchemeClass,
    method: Seq<char>,
    path: Seq<char>,
    h1: RouteHandle,
    h2: RouteHandle,
)
    requires
        s != SchemeClass::Any,
    ensures
        spec_match_scheme(
            spec_add_static(spec_add_static(r, None, s, method, path, h1), None, s, method, path, h2),
            s,
            method,
            path,
        ) == Some((h2, no_params())),
{
    lemma_static_route_resolves_scheme(
        spec_add_static(r, None, s, method, path, h1),
        s,
        method,
        path,
        h2,
    );
}

/// One host's HTTP route tree: a method map per scheme class.
pub struct HttpTree {
    any: StrMap<RouteNode>,
    plain: StrMap<RouteNode>,
    secure: StrMap<RouteNode>,
}

impl View for HttpTree {
    type V = HttpTreeV;

    closed spec fn view(&self) -> HttpTreeV {
        HttpTreeV { any: self.any@, plain: self.plain@, secure: self.secure@ }
    }
}

/// The HTTP route registry: the default tree and the per-host trees.
pub struct HttpRouter {
    nhost: HttpTree,
    whost: StrMap<HttpTree>,
}

impl View for HttpRouter {
    type V = HttpRouterV;

    closed spec fn view(&self) -> HttpRouterV {
        HttpRouterV { nhost: self.nhost@, whost: self.whost@ }
    }
}

impl HttpTree {
    fn new() -> (r: Self)
        ensures
            r@ == empty_http_tree(),
    {
        HttpTree { any: StrMap::new(), plain: StrMap::new(), secure: StrMap::new() }
    }

    fn mmap_insert_static(m: &mut StrMap<RouteNode>, method: &str, path: &str, h: RouteHandle)
        ensures
            final(m)@ == old(m)@.insert(
                method@,
                spec_node_add_static(spec_mmap_node(old(m)@, method@), path@, h),
            ),
    {
        let key = method.to_owned();
        let mut node = match m.take(&key) {
            Some(n) => n,
            None => RouteNode::new(),
        };
        node.insert_static(path, h);
        m.insert(key, node);
        proof {
            assert(m@ =~= old(m)@.insert(
                method@,
                spec_node_add_static(spec_mmap_node(old(m)@, method@), path@, h),
            ));
        }
    }

    fn mmap_append_pattern(m: &mut StrMap<RouteNode>, method: &str, p: Pattern, h: RouteHandle)
        ensures
            final(m)@ == old(m)@.insert(
                method@,
                spec_node_add_pattern(spec_mmap_node(old(m)@, method@), p@, h),
            ),
    {
        let ghost pv = p@;
        let key = method.to_owned();
        let mut node = match m.take(&key) {
            Some(n) => n,
            None => RouteNode::new(),
        };
        node.append_pattern(p, h);
        m.insert(key, node);
        proof {
            assert(m@ =~= old(m)@.insert(
                method@,
                spec_node_add_pattern(spec_mmap_node(old(m)@, method@), pv, h),
            ));
        }
    }

    fn add_static(&mut self, scheme: SchemeClass, method: &str, path: &str, h: RouteHandle)
        ensures
            final(self)@ == spec_tree_update(
                old(self)@,
                scheme,
                method@,
                spec_node_add_static(spec_mmap_node(spec_slot(old(self)@, scheme), method@), path@, h),
            ),
    {
        match scheme {
            SchemeClass::Any => Self::mmap_insert_static(&mut self.any, method, path, h),
            SchemeClass::Plain => Self::mmap_insert_static(&mut self.plain, method, path, h),
            SchemeClass::Secure => Self::mmap_insert_static(&mut self.secure, method, path, h),
        }
    }

    fn add_pattern(&mut self, scheme: SchemeClass, method: &str, p: Pattern, h: RouteHandle)
        ensures
            final(self)@ == spec_tree_update(
                old(self)@,
                scheme,
                method@,
                spec_node_add_pattern(spec_mmap_node(spec_slot(old(self)@, scheme), method@), p@, h),
            ),
    {
        match scheme {
            SchemeClass::Any => Self::mmap_append_pattern(&mut self.any, method, p, h),
            SchemeClass::Plain => Self::mmap_append_pattern(&mut self.plain, method, p, h),
            SchemeClass::Secure => Self::mmap_append_pattern(&mut self.secure, method, p, h),
        }
    }
}

fn mmap_lookup(m: &StrMap<RouteNode>, method: &String, path: &str) -> (r: Option<
    (RouteHandle, Params),
>)
    ensures
        r matches Some((h, ps)) ==> spec_mmap_lookup(m@, method@, path@) == Some((
            h,
            ps.deep_view(),
        )),
        r is None ==> spec_mmap_lookup(m@, method@, path@) is None,
{
    match m.get(method) {
        Some(node) => node.lookup(path),
        None => None,
    }
}

fn tree_lookup(t: &HttpTree, scheme: SchemeClass, method: &String, path: &str) -> (r: Option<
    (RouteHandle, Params),
>)
    ensures
        r matches Some((h, ps)) ==> spec_tree_lookup(t@, scheme, method@, path@) == Some((
            h,
            ps.deep_view(),
        )),
        r is None ==> spec_tree_lookup(t@, scheme, method@, path@) is None,
{
    let slot = match scheme {
        SchemeClass::Any => &t.any,
        SchemeClass::Plain => &t.plain,
        SchemeClass::Secure => &t.secure,
    };
    match mmap_lookup(slot, method, path) {
        Some(v) => Some(v),
        None => mmap_lookup(&t.any, method, path),
    }
}

impl HttpRouter {
    /// An empty registry: every query misses.
    pub fn new() -> (r: Self)
        ensures
            r@ == empty_http_router(),
    {
        let r = HttpRouter { nhost: HttpTree::new(), whost: StrMap::new() };
        proof {
            assert(r@ =~= empty_http_router());
        }
        r
    }

    /// Register an exact path under the given host, scheme class and
    /// method, creating any missing intermediate table; a repeated
    /// registration of the same path replaces the earlier handle.
    pub fn add_static_route(
        &mut self,
        route: RouteHandle,
        path: &str,
        method: &str,
        host: Option<&str>,
        scheme: SchemeClass,
    )
        ensures
            final(self)@ == spec_add_static(
                old(self)@,
                host_key(host),
                scheme,
                method@,
                path@,
                route,
            ),
    {
        match host {
            Some(hs) => {
                let key = hs.to_owned();
                let mut tree = match self.whost.take(&key) {
                    Some(t) => t,
                    None => HttpTree::new(),
                };
                tree.add_static(scheme, method, path, route);
                self.whost.insert(key, tree);
                proof {
                    assert(self@.whost =~= spec_add_static(
                        old(self)@,
                        host_key(host),
                        scheme,
                        method@,
                        path@,
                        route,
                    ).whost);
                }
            },
            None => {
                self.nhost.add_static(scheme, method, path, route);
            },
        }
    }

    /// Register a pattern rule in the same way; a malformed rule is
    /// rejected atomically and the registry is left exactly as it was.
    pub fn add_re_route(
        &mut self,
        route: RouteHandle,
        rule: &str,
        method: &str,
        host: Option<&str>,
        scheme: SchemeClass,
    ) -> (r: Result<(), CompileError>)
        ensures
            r is Ok <==> rule_compiles(rule@),
            r is Ok ==> final(self)@ == spec_add_pattern(
                old(self)@,
                host_key(host),
                scheme,
                method@,
                rule@,
                route,
            ),
            r is Err ==> *final(self) == *old(self),
    {
        let p = match Pattern::compile(rule) {
            Ok(p) => p,
            Err(e) => {
                return Err(e);
            },
        };
        match host {
            Some(hs) => {
                let key = hs.to_owned();
                let mut tree = match self.whost.take(&key) {
                    Some(t) => t,
                    None => HttpTree::new(),
                };
                tree.add_pattern(scheme, method, p, route);
                self.whost.insert(key, tree);
                proof {
                    assert(self@.whost =~= spec_add_pattern(
                        old(self)@,
                        host_key(host),
                        scheme,
                        method@,
                        rule@,
                        route,
                    ).whost);
                }
            },
            None => {
                self.nhost.add_pattern(scheme, method, p, route);
            },
        }
        Ok(())
    }

    /// A query with no host and no scheme context.
    pub fn match_route_direct(&self, method: &str, path: &str) -> (r: MatchResult)
        ensures
            outcome_matches(r, spec_match_direct(self@, method@, path@)),
    {
        let m = method.to_owned();
        to_match_result(mmap_lookup(&self.nhost.any, &m, path))
    }

    /// A scheme-qualified query: the scheme slot of the default tree, then
    /// its "any" slot.
    pub fn match_route_scheme(&self, scheme: SchemeClass, method: &str, path: &str) -> (r:
        MatchResult)
        requires
            scheme != SchemeClass::Any,
        ensures
            outcome_matches(r, spec_match_scheme(self@, scheme, method@, path@)),
    {
        let m = method.to_owned();
        to_match_result(tree_lookup(&self.nhost, scheme, &m, path))
    }

    /// A host-qualified query: the "any" slot of the host's tree where one
    /// is registered, then the "any" slot of the default tree.
    pub fn match_route_host(&self, host: &str, method: &str, path: &str) -> (r: MatchResult)
        ensures
            outcome_matches(r, spec_match_host(self@, host@, method@, path@)),
    {
        let hk = host.to_owned();
        let m = method.to_owned();
        let first = match self.whost.get(&hk) {
            Some(t) => mmap_lookup(&t.any, &m, path),
            None => None,
        };
        match first {
            Some(v) => to_match_result(Some(v)),
            None => to_match_result(mmap_lookup(&self.nhost.any, &m, path)),
        }
    }

    /// A fully qualified query: the scheme fallback on the resolved host
    /// tree and, where it misses, once more on the default tree.
    pub fn match_route_all(&self, host: &str, scheme: SchemeClass, method: &str, path: &str) -> (r:
        MatchResult)
        requires
            scheme != SchemeClass::Any,
        ensures
            outcome_matches(r, spec_match_all(self@, host@, scheme, method@, path@)),
    {
        let hk = host.to_owned();
        let m = method.to_owned();
        let first = match self.whost.get(&hk) {
            Some(t) => tree_lookup(t, scheme, &m, path),
            None => None,
        };
        match first {
            Some(v) => to_match_result(Some(v)),
            None => to_match_result(tree_lookup(&self.nhost, scheme, &m, path)),
        }
    }
}

} // verus!
