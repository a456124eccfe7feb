//! The connection-upgrade route registry and matcher. Requests of this kind
//! carry a single implicit verb, so there is no method dimension: each
//! scheme-class slot holds a route node directly. The fallback chain is the
//! same as for HTTP: host-specific tree before the default tree, scheme slot
//! before the "any" slot.
use vstd::prelude::*;

use crate::CompileError;
use crate::RouteHandle;
use crate::SchemeClass;
use crate::host_key;
use crate::node::MatchResult;
use crate::node::NodeV;
use crate::node::Params;
use crate::node::ParamsV;
use crate::node::RouteNode;
use crate::node::empty_node;
use crate::node::lemma_first_pattern_wins;
use crate::node::no_params;
use crate::node::or_else;
use crate::node::outcome_matches;
use crate::node::spec_node_add_pattern;
use crate::node::spec_node_add_static;
use crate::node::spec_node_lookup;
use crate::node::spec_pattern_lookup;
use crate::node::to_match_result;
use crate::pattern::Pattern;
use crate::pattern::params_of;
use crate::pattern::rule_compiles;
use crate::pattern::rule_is_match;
use crate::strmap::StrMap;

verus! {

/// The model of one host's upgrade tree: a route node per scheme class.
#[verifier::ext_equal]
pub struct WsTreeV {
    pub any: NodeV,
    pub plain: NodeV,
    pub secure: NodeV,
}

/// The model of the whole upgrade registry.
#[verifier::ext_equal]
pub struct WsRouterV {
    pub nhost: WsTreeV,
    pub whost: Map<Seq<char>, WsTreeV>,
}

/// A tree with nothing registered.
pub open spec fn empty_ws_tree() -> WsTreeV {
    WsTreeV { any: empty_node(), plain: empty_node(), secure: empty_node() }
}

/// A registry with nothing registered.
pub open spec fn empty_ws_router() -> WsRouterV {
    WsRouterV { nhost: empty_ws_tree(), whost: Map::empty() }
}

/// The node a scheme class selects within a tree.
pub open spec fn spec_ws_slot(t: WsTreeV, s: SchemeClass) -> NodeV {
    match s {
        SchemeClass::Any => t.any,
        SchemeClass::Plain => t.plain,
        SchemeClass::Secure => t.secure,
    }
}

/// The tree with the node of one scheme class replaced.
pub open spec fn spec_ws_set_slot(t: WsTreeV, s: SchemeClass, n: NodeV) -> WsTreeV {
    match s {
        SchemeClass::Any => WsTreeV { any: n, plain: t.plain, secure: t.secure },
        SchemeClass::Plain => WsTreeV { any: t.any, plain: n, secure: t.secure },
        SchemeClass::Secure => WsTreeV { any: t.any, plain: t.plain, secure: n },
    }
}

/// The tree a query resolves for an optional host.
pub open spec fn spec_ws_host_tree(r: WsRouterV, host: Option<Seq<char>>) -> WsTreeV {
    match host {
        None => r.nhost,
        Some(h) => if r.whost.contains_key(h) {
            r.whost[h]
        } else {
            empty_ws_tree()
        },
    }
}

/// The registry with the tree of one (optional) host replaced.
pub open spec fn spec_ws_set_host_tree(r: WsRouterV, host: Option<Seq<char>>, t: WsTreeV) -> WsRouterV {
    match host {
        None => WsRouterV { nhost: t, whost: r.whost },
        Some(h) => WsRouterV { nhost: r.nhost, whost: r.whost.insert(h, t) },
    }
}

/// Registration of an exact path.
pub open spec fn spec_ws_add_static(
    r: WsRouterV,
    host: Option<Seq<char>>,
    s: SchemeClass,
    path: Seq<char>,
    h: RouteHandle,
) -> WsRouterV {
    let t = spec_ws_host_tree(r, host);
    spec_ws_set_host_tree(r, host, spec_ws_set_slot(t, s, spec_node_add_static(spec_ws_slot(t, s), path, h)))
}

/// Registration of a pattern rule.
pub open spec fn spec_ws_add_pattern(
    r: WsRouterV,
    host: Option<Seq<char>>,
    s: SchemeClass,
    rule: Seq<char>,
    h: RouteHandle,
) -> WsRouterV {
    let t = spec_ws_host_tree(r, host);
    spec_ws_set_host_tree(r, host, spec_ws_set_slot(t, s, spec_node_add_pattern(spec_ws_slot(t, s), rule, h)))
}

/// The scheme-fallback step within one tree.
pub open spec fn spec_ws_tree_lookup(t: WsTreeV, s: SchemeClass, path: Seq<char>) -> Option<
    (RouteHandle, ParamsV),
> {
    or_else(spec_node_lookup(spec_ws_slot(t, s), path), spec_node_lookup(t.any, path))
}

/// A query with no host and no scheme context.
pub open spec fn spec_ws_match_direct(r: WsRouterV, path: Seq<char>) -> Option<
    (RouteHandle, ParamsV),
> {
    spec_node_lookup(r.nhost.any, path)
}

/// A scheme-qualified query without a host.
pub open spec fn spec_ws_match_scheme(r: WsRouterV, s: SchemeClass, path: Seq<char>) -> Option<
    (RouteHandle, ParamsV),
> {
    spec_ws_tree_lookup(r.nhost, s, path)
}

/// A host-qualified query without a scheme.
pub open spec fn spec_ws_match_host(r: WsRouterV, host: Seq<char>, path: Seq<char>) -> Option<
    (RouteHandle, ParamsV),
> {
    or_else(
        spec_node_lookup(spec_ws_host_tree(r, Some(host)).any, path),
        spec_ws_match_direct(r, path),
    )
}

/// A fully qualified query.
pub open spec fn spec_ws_match_all(r: WsRouterV, host: Seq<char>, s: SchemeClass, path: Seq<char>) -> Option<
    (RouteHandle, ParamsV),
> {
    or_else(
        spec_ws_tree_lookup(spec_ws_host_tree(r, Some(host)), s, path),
        spec_ws_match_scheme(r, s, path),
    )
}

/// A registered static route resolves in its own context: registering an
/// exact path under a host and a scheme class, then querying fully
/// qualified with that very host and scheme, returns its handle with an
/// empty parameter mapping — whatever was registered before.
pub proof fn lemma_ws_static_route_resolves_all(
    r: WsRouterV,
    host: Seq<char>,
    s: SchemeClass,
    path: Seq<char>,
    h: RouteHandle,
)
    requires
        s != SchemeClass::Any,
    ensures
        spec_ws_match_all(spec_ws_add_static(r, Some(host), s, path, h), host, s, path) == Some(
            (h, no_params()),
        ),
{
    let r2 = spec_ws_add_static(r, Some(host), s, path, h);
    let t2 = spec_ws_host_tree(r2, Some(host));
    assert(spec_ws_slot(t2, s).statics.contains_key(path));
}

/// The same, for a registration without a host and a scheme-qualified
/// query.
pub proof fn lemma_ws_static_route_resolves_scheme(
    r: WsRouterV,
    s: SchemeClass,
    path: Seq<char>,
    h: RouteHandle,
)
    requires
        s != SchemeClass::Any,
    ensures
        spec_ws_match_scheme(spec_ws_add_static(r, None, s, path, h), s, path) == Some(
            (h, no_params()),
        ),
{
    let r2 = spec_ws_add_static(r, None, s, path, h);
    assert(spec_ws_slot(r2.nhost, s).statics.contains_key(path));
}

/// The same, for a registration under the "any" scheme class without a
/// host and a direct query.
pub proof fn lemma_ws_static_route_resolves_direct(
    r: WsRouterV,
    path: Seq<char>,
    h: RouteHandle,
)
    ensures
        spec_ws_match_direct(spec_ws_add_static(r, None, SchemeClass::Any, path, h), path) == Some(
            (h, no_params()),
        ),
{
    let r2 = spec_ws_add_static(r, None, SchemeClass::Any, path, h);
    assert(r2.nhost.any.statics.contains_key(path));
}

/// The same, for a registration under a host and the "any" scheme class
/// and a host-qualified query.
pub proof fn lemma_ws_static_route_resolves_host(
    r: WsRouterV,
    host: Seq<char>,
    path: Seq<char>,
    h: RouteHandle,
)
    ensures
        spec_ws_match_host(spec_ws_add_static(r, Some(host), SchemeClass::Any, path, h), host, path)
            == Some((h, no_params())),
{
    let r2 = spec_ws_add_static(r, Some(host), SchemeClass::Any, path, h);
    let t2 = spec_ws_host_tree(r2, Some(host));
    assert(t2.any.statics.contains_key(path));
}

/// First-registered pattern wins, seen from a query: registering two
/// pattern rules in the same host-less context, both matching a path that
/// the node's static table and earlier patterns miss, a scheme-qualified
/// query for that path returns the handle registered with the first rule.
pub proof fn lemma_ws_pattern_priority_scheme(
    r: WsRouterV,
    s: SchemeClass,
    r1: Seq<char>,
    h1: RouteHandle,
    r2: Seq<char>,
    h2: RouteHandle,
    path: Seq<char>,
)
    requires
        ({
            let n = spec_ws_slot(r.nhost, s);
            &&& !n.statics.contains_key(path)
            &&& spec_pattern_lookup(n.patterns, path) is None
            &&& rule_is_match(r1, path)
            &&& rule_is_match(r2, path)
        }),
    ensures
        spec_ws_match_scheme(
            spec_ws_add_pattern(spec_ws_add_pattern(r, None, s, r1, h1), None, s, r2, h2),
            s,
            path,
        ) == Some((h1, params_of(r1, path))),
{
    let n = spec_ws_slot(r.nhost, s);
    lemma_first_pattern_wins(n, r1, h1, r2, h2, path);
}

/// Scheme fallback: where the scheme-specific node misses, the query
/// returns exactly what the "any" node holds.
pub proof fn lemma_ws_scheme_fallback(t: WsTreeV, s: SchemeClass, path: Seq<char>)
    requires
        spec_node_lookup(spec_ws_slot(t, s), path) is None,
    ensures
        spec_ws_tree_lookup(t, s, path) == spec_node_lookup(t.any, path),
{
}

/// A route registered under the "any" scheme class only is still resolved
/// by a query qualified with a specific scheme, through the scheme
/// fallback.
pub proof fn lemma_ws_any_scheme_route_resolves(
    r: WsRouterV,
    s: SchemeClass,
    path: Seq<char>,
    h: RouteHandle,
)
    requires
        s != SchemeClass::Any,
        spec_node_lookup(spec_ws_slot(r.nhost, s), path) is None,
    ensures
        spec_ws_match_scheme(spec_ws_add_static(r, None, SchemeClass::Any, path, h), s, path)
            == Some((h, no_params())),
{
    let r2 = spec_ws_add_static(r, None, SchemeClass::Any, path, h);
    assert(spec_ws_slot(r2.nhost, s) == spec_ws_slot(r.nhost, s));
    assert(r2.nhost.any.statics.contains_key(path));
}

/// Host fallback: a query naming a host with no registered tree returns
/// exactly what the corresponding host-less query returns.
pub proof fn lemma_ws_host_fallback(r: WsRouterV, host: Seq<char>, s: SchemeClass, path: Seq<char>)
    requires
        !r.whost.contains_key(host),
    ensures
        spec_ws_match_all(r, host, s, path) == spec_ws_match_scheme(r, s, path),
        spec_ws_match_host(r, host, path) == spec_ws_match_direct(r, path),
{
    assert(spec_ws_host_tree(r, Some(host)) == empty_ws_tree());
    assert(spec_node_lookup(empty_node(), path) is None);
}

/// Any query against the empty registry misses, on every entry point.
pub proof fn lemma_ws_empty_registry_no_match(host: Seq<char>, s: SchemeClass, path: Seq<char>)
    ensures
        spec_ws_match_direct(empty_ws_router(), path) is None,
        spec_ws_match_scheme(empty_ws_router(), s, path) is None,
        spec_ws_match_host(empty_ws_router(), host, path) is None,
        spec_ws_match_all(empty_ws_router(), host, s, path) is None,
{
    assert(spec_node_lookup(empty_node(), path) is None);
}

/// Registering the same static path twice in the same context leaves only
/// the second handle resolvable there.
pub proof fn lemma_ws_static_replace_scheme(
    r: WsRouterV,
    s: SchemeClass,
    path: Seq<char>,
    h1: RouteHandle,
    h2: RouteHandle,
)
    requires
        s != SchemeClass::Any,
    ensures
        spec_ws_match_scheme(
            spec_ws_add_static(spec_ws_add_static(r, None, s, path, h1), None, s, path, h2),
            s,
            path,
        ) == Some((h2, no_params())),
{
    lemma_ws_static_route_resolves_scheme(spec_ws_add_static(r, None, s, path, h1), s, path, h2);
}

/// One host's upgrade route tree: a node per scheme class.
pub struct WsTree {
    any: RouteNode,
    plain: RouteNode,
    secure: RouteNode,
}

impl View for WsTree {
    type V = WsTreeV;

    closed spec fn view(&self) -> WsTreeV {
        WsTreeV { any: self.any@, plain: self.plain@, secure: self.secure@ }
    }
}

/// The upgrade route registry: the default tree and the per-host trees.
pub struct WsRouter {
    nhost: WsTree,
    whost: StrMap<WsTree>,
}

impl View for WsRouter {
    type V = WsRouterV;

    closed spec fn view(&self) -> WsRouterV {
        WsRouterV { nhost: self.nhost@, whost: self.whost@ }
    }
}

impl WsTree {
    fn new() -> (r: Self)
        ensures
            r@ == empty_ws_tree(),
    {
        WsTree { any: RouteNode::new(), plain: RouteNode::new(), secure: RouteNode::new() }
    }

    fn add_static(&mut self, scheme: SchemeClass, path: &str, h: RouteHandle)
        ensures
            final(self)@ == spec_ws_set_slot(
                old(self)@,
                scheme,
                spec_node_add_static(spec_ws_slot(old(self)@, scheme), path@, h),
            ),
    {
        match scheme {
            SchemeClass::Any => self.any.insert_static(path, h),
            SchemeClass::Plain => self.plain.insert_static(path, h),
            SchemeClass::Secure => self.secure.insert_static(path, h),
        }
    }

    fn add_pattern(&mut self, scheme: SchemeClass, p: Pattern, h: RouteHandle)
        ensures
            final(self)@ == spec_ws_set_slot(
                old(self)@,
                scheme,
                spec_node_add_pattern(spec_ws_slot(old(self)@, scheme), p@, h),
            ),
    {
        match scheme {
            SchemeClass::Any => self.any.append_pattern(p, h),
            SchemeClass::Plain => self.plain.append_pattern(p, h),
            SchemeClass::Secure => self.secure.append_pattern(p, h),
        }
    }
}

fn ws_tree_lookup(t: &WsTree, scheme: SchemeClass, path: &str) -> (r: Option<(RouteHandle, Params)>)
    ensures
        r matches Some((h, ps)) ==> spec_ws_tree_lookup(t@, scheme, path@) == Some((
            h,
            ps.deep_view(),
        )),
        r is None ==> spec_ws_tree_lookup(t@, scheme, path@) is None,
{
    let slot = match scheme {
        SchemeClass::Any => &t.any,
        SchemeClass::Plain => &t.plain,
        SchemeClass::Secure => &t.secure,
    };
    match slot.lookup(path) {
        Some(v) => Some(v),
        None => t.any.lookup(path),
    }
}

impl WsRouter {
    /// An empty registry: every query misses.
    pub fn new() -> (r: Self)
        ensures
            r@ == empty_ws_router(),
    {
        let r = WsRouter { nhost: WsTree::new(), whost: StrMap::new() };
        proof {
            assert(r@ =~= empty_ws_router());
        }
        r
    }

    /// Register an exact path under the given host and scheme class; a
    /// repeated registration of the same path replaces the earlier handle.
    pub fn add_static_route(
        &mut self,
        route: RouteHandle,
        path: &str,
        host: Option<&str>,
        scheme: SchemeClass,
    )
        ensures
            final(self)@ == spec_ws_add_static(old(self)@, host_key(host), scheme, path@, route),
    {
        match host {
            Some(hs) => {
                let key = hs.to_owned();
                let mut tree = match self.whost.take(&key) {
                    Some(t) => t,
                    None => WsTree::new(),
                };
                tree.add_static(scheme, path, route);
                self.whost.insert(key, tree);
                proof {
                    assert(self@.whost =~= spec_ws_add_static(
                        old(self)@,
                        host_key(host),
                        scheme,
                        path@,
                        route,
                    ).whost);
                }
            },
            None => {
                self.nhost.add_static(scheme, path, route);
            },
        }
    }

    /// Register a pattern rule in the same way; a malformed rule is
    /// rejected atomically and the registry is left exactly as it was.
    pub fn add_re_route(
        &mut self,
        route: RouteHandle,
        rule: &str,
        host: Option<&str>,
        scheme: SchemeClass,
    ) -> (r: Result<(), CompileError>)
        ensures
            r is Ok <==> rule_compiles(rule@),
            r is Ok ==> final(self)@ == spec_ws_add_pattern(
                old(self)@,
                host_key(host),
                scheme,
                rule@,
                route,
            ),
            r is Err ==> *final(self) == *old(self),
    {
        let p = match Pattern::compile(rule) {
            Ok(p) => p,
            Err(e) => {
                return Err(e);
            },
        };
        match host {
            Some(hs) => {
                let key = hs.to_owned();
                let mut tree = match self.whost.take(&key) {
                    Some(t) => t,
                    None => WsTree::new(),
                };
                tree.add_pattern(scheme, p, route);
                self.whost.insert(key, tree);
                proof {
                    assert(self@.whost =~= spec_ws_add_pattern(
                        old(self)@,
                        host_key(host),
                        scheme,
                        rule@,
                        route,
                    ).whost);
                }
            },
            None => {
                self.nhost.add_pattern(scheme, p, route);
            },
        }
        Ok(())
    }

    /// A query with no host and no scheme context: only the "any" slot of
    /// the default tree is consulted.
    pub fn match_route_direct(&self, path: &str) -> (r: MatchResult)
        ensures
            outcome_matches(r, spec_ws_match_direct(self@, path@)),
    {
        to_match_result(self.nhost.any.lookup(path))
    }

    /// A scheme-qualified query: the scheme slot of the default tree, then
    /// its "any" slot.
    pub fn match_route_scheme(&self, scheme: SchemeClass, path: &str) -> (r: MatchResult)
        requires
            scheme != SchemeClass::Any,
        ensures
            outcome_matches(r, spec_ws_match_scheme(self@, scheme, path@)),
    {
        to_match_result(ws_tree_lookup(&self.nhost, scheme, path))
    }

    /// A host-qualified query: the "any" slot of the host's tree where one
    /// is registered, then the "any" slot of the default tree.
    pub fn match_route_host(&self, host: &str, path: &str) -> (r: MatchResult)
        ensures
            outcome_matches(r, spec_ws_match_host(self@, host@, path@)),
    {
        let hk = host.to_owned();
        let first = match self.whost.get(&hk) {
            Some(t) => t.any.lookup(path),
            None => None,
        };
        match first {
            Some(v) => to_match_result(Some(v)),
            None => to_match_result(self.nhost.any.lookup(path)),
        }
    }

    /// A fully qualified query: the scheme fallback on the resolved host
    /// tree and, where it misses, once more on the default tree.
    pub fn match_route_all(&self, host: &str, scheme: SchemeClass, path: &str) -> (r: MatchResult)
        requires
            scheme != SchemeClass::Any,
        ensures
            outcome_matches(r, spec_ws_match_all(self@, host@, scheme, path@)),
    {
        let hk = host.to_owned();
        let first = match self.whost.get(&hk) {
            Some(t) => ws_tree_lookup(t, scheme, path),
            None => None,
        };
        match first {
            Some(v) => to_match_result(Some(v)),
            None => to_match_result(ws_tree_lookup(&self.nhost, scheme, path)),
        }
    }
}

} // verus!
