//! The leaf lookup unit: an exact-path table together with an
//! insertion-ordered list of compiled pattern routes. An exact hit always
//! takes precedence over the patterns; the patterns are scanned in
//! registration order and the first rule that matches wins.
use vstd::prelude::*;

use crate::RouteHandle;
use crate::pattern::Pattern;
use crate::pattern::params_of;
use crate::pattern::rule_is_match;
use crate::strmap::StrMap;

verus! {

/// The parameters captured by a match: each group name bound to a captured
/// substring or to an explicit absence marker.
pub type Params = Vec<(String, Option<String>)>;

/// The mathematical shape of captured parameters: group names in order, each
/// with its captured characters or `None`.
pub type ParamsV = Seq<(Seq<char>, Option<Seq<char>>)>;

/// The model of a `RouteNode`: the exact-path table as a map, the pattern
/// routes as the sequence of their rules and handles in registration order.
#[verifier::ext_equal]
pub struct NodeV {
    pub statics: Map<Seq<char>, RouteHandle>,
    pub patterns: Seq<(Seq<char>, RouteHandle)>,
}

/// The parameter mapping of a static hit or of a total miss: empty.
pub open spec fn no_params() -> ParamsV {
    Seq::empty()
}

/// The node with nothing registered.
pub open spec fn empty_node() -> NodeV {
    NodeV { statics: Map::empty(), patterns: Seq::empty() }
}

/// The first pattern whose rule matches `path`, with the parameters it
/// captures; `None` when no rule matches.
pub open spec fn spec_pattern_lookup(
    patterns: Seq<(Seq<char>, RouteHandle)>,
    path: Seq<char>,
) -> Option<(RouteHandle, ParamsV)>
    decreases patterns.len(),
{
    if patterns.len() == 0 {
        None
    } else if rule_is_match(patterns.first().0, path) {
        Some((patterns.first().1, params_of(patterns.first().0, path)))
    } else {
        spec_pattern_lookup(patterns.drop_first(), path)
    }
}

/// A node lookup: the static table decides first, unconditionally; only on
/// a static miss are the patterns scanned in registration order.
pub open spec fn spec_node_lookup(node: NodeV, path: Seq<char>) -> Option<(RouteHandle, ParamsV)> {
    if node.statics.contains_key(path) {
        Some((node.statics[path], no_params()))
    } else {
        spec_pattern_lookup(node.patterns, path)
    }
}

/// Registration of an exact path: insert-or-replace in the static table.
pub open spec fn spec_node_add_static(node: NodeV, path: Seq<char>, h: RouteHandle) -> NodeV {
    NodeV { statics: node.statics.insert(path, h), patterns: node.patterns }
}

/// Registration of a pattern: appended after the existing patterns, which
/// keep their order; a duplicate rule is appended, not replaced.
pub open spec fn spec_node_add_pattern(node: NodeV, rule: Seq<char>, h: RouteHandle) -> NodeV {
    NodeV { statics: node.statics, patterns: node.patterns.push((rule, h)) }
}

/// Scanning a pattern list stops at the first index whose rule matches.
pub proof fn lemma_pattern_lookup_at(
    patterns: Seq<(Seq<char>, RouteHandle)>,
    path: Seq<char>,
    i: int,
)
    requires
        0 <= i < patterns.len(),
        forall|j: int| 0 <= j < i ==> !rule_is_match(#[trigger] patterns[j].0, path),
        rule_is_match(patterns[i].0, path),
    ensures
        spec_pattern_lookup(patterns, path) == Some((patterns[i].1, params_of(patterns[i].0, path))),
    decreases i,
{
    if i > 0 {
        lemma_pattern_lookup_at(patterns.drop_first(), path, i - 1);
    }
}

/// When no rule in the list matches, the scan yields nothing.
pub proof fn lemma_pattern_lookup_none(patterns: Seq<(Seq<char>, RouteHandle)>, path: Seq<char>)
    requires
        forall|j: int| 0 <= j < patterns.len() ==> !rule_is_match(#[trigger] patterns[j].0, path),
    ensures
        spec_pattern_lookup(patterns, path) is None,
    decreases patterns.len(),
{
    if patterns.len() > 0 {
        lemma_pattern_lookup_none(patterns.drop_first(), path);
    }
}

/// Appending a pattern never changes the outcome for a path that an earlier
/// pattern already matches; it only serves paths the earlier list missed.
pub proof fn lemma_pattern_lookup_push(
    patterns: Seq<(Seq<char>, RouteHandle)>,
    e: (Seq<char>, RouteHandle),
    path: Seq<char>,
)
    ensures
        spec_pattern_lookup(patterns.push(e), path) == (if spec_pattern_lookup(patterns, path)
            is Some {
            spec_pattern_lookup(patterns, path)
        } else if rule_is_match(e.0, path) {
            Some((e.1, params_of(e.0, path)))
        } else {
            None
        }),
    decreases patterns.len(),
{
    if patterns.len() == 0 {
        assert(patterns.push(e).drop_first() =~= patterns);
    } else {
        assert(patterns.push(e).drop_first() =~= patterns.drop_first().push(e));
        lemma_pattern_lookup_push(patterns.drop_first(), e, path);
    }
}

/// Exact-match precedence is absolute and unconditional: a path present in
/// the static table resolves there, with an empty parameter mapping,
/// whatever patterns are registered beside it.
pub proof fn lemma_static_precedence(n: NodeV, path: Seq<char>)
    requires
        n.statics.contains_key(path),
    ensures
        spec_node_lookup(n, path) == Some((n.statics[path], no_params())),
{
}

/// First-registered pattern wins: appending rules `r1` then `r2`, both
/// matching `path`, to a node whose static table and earlier patterns miss
/// `path`, makes a lookup return the handle registered with `r1`.
pub proof fn lemma_first_pattern_wins(
    n: NodeV,
    r1: Seq<char>,
    h1: RouteHandle,
    r2: Seq<char>,
    h2: RouteHandle,
    path: Seq<char>,
)
    requires
        !n.statics.contains_key(path),
        spec_pattern_lookup(n.patterns, path) is None,
        rule_is_match(r1, path),
        rule_is_match(r2, path),
    ensures
        spec_node_lookup(
            spec_node_add_pattern(spec_node_add_pattern(n, r1, h1), r2, h2),
            path,
        ) == Some((h1, params_of(r1, path))),
{
    lemma_pattern_lookup_push(n.patterns, (r1, h1), path);
    lemma_pattern_lookup_push(n.patterns.push((r1, h1)), (r2, h2), path);
}

/// The later of two lookup attempts in a fallback chain counts only where
/// the earlier one missed.
pub open spec fn or_else(
    a: Option<(RouteHandle, ParamsV)>,
    b: Option<(RouteHandle, ParamsV)>,
) -> Option<(RouteHandle, ParamsV)> {
    if a is Some {
        a
    } else {
        b
    }
}

/// What a query returns: the matched handle, absent on a miss, and the
/// captured parameters, empty on a static hit and on a miss.
pub struct MatchResult {
    pub handle: Option<RouteHandle>,
    pub params: Params,
}

/// Whether an executable query result carries exactly what the model lookup
/// found.
pub open spec fn outcome_matches(r: MatchResult, s: Option<(RouteHandle, ParamsV)>) -> bool {
    match s {
        Some(pr) => r.handle == Some(pr.0) && r.params.deep_view() == pr.1,
        None => r.handle is None && r.params@.len() == 0,
    }
}

/// Package a lookup outcome: a miss becomes an absent handle with an empty
/// parameter mapping, never an error.
pub fn to_match_result(o: Option<(RouteHandle, Params)>) -> (r: MatchResult)
    ensures
        o matches Some((h, ps)) ==> r.handle == Some(h) && r.params == ps,
        o is None ==> r.handle is None && r.params@.len() == 0,
{
    match o {
        Some((h, ps)) => MatchResult { handle: Some(h), params: ps },
        None => MatchResult { handle: None, params: Vec::new() },
    }
}

/// A leaf route node: the exact-path table and the ordered pattern routes.
pub struct RouteNode {
    statics: StrMap<RouteHandle>,
    patterns: Vec<(Pattern, RouteHandle)>,
}

impl View for RouteNode {
    type V = NodeV;

    closed spec fn view(&self) -> NodeV {
        NodeV {
            statics: self.statics@,
            patterns: self.patterns@.map_values(|pr: (Pattern, RouteHandle)| (pr.0@, pr.1)),
        }
    }
}

impl RouteNode {
    /// A node with nothing registered.
    pub fn new() -> (r: Self)
        ensures
            r@ == empty_node(),
    {
        let r = RouteNode { statics: StrMap::new(), patterns: Vec::new() };
        proof {
            assert(r@.patterns =~= empty_node().patterns);
            assert(r@ =~= empty_node());
        }
        r
    }

    /// Insert-or-replace an exact path: a later registration of the same
    /// path replaces the earlier handle.
    pub fn insert_static(&mut self, path: &str, h: RouteHandle)
        ensures
            final(self)@ == spec_node_add_static(old(self)@, path@, h),
    {
        self.statics.set(path.to_owned(), h);
        proof {
            assert(self@ =~= spec_node_add_static(old(self)@, path@, h));
        }
    }

    /// Append a compiled pattern after the existing ones, which keep their
    /// order and their priority.
    pub fn append_pattern(&mut self, p: Pattern, h: RouteHandle)
        ensures
            final(self)@ == spec_node_add_pattern(old(self)@, p@, h),
    {
        let ghost pv = p@;
        self.patterns.push((p, h));
        proof {
            assert(self@.patterns =~= old(self)@.patterns.push((pv, h)));
            assert(self@ =~= spec_node_add_pattern(old(self)@, pv, h));
        }
    }

    /// Look `path` up: the static table first; on a miss, the first pattern
    /// whose rule matches, with the parameters it captures.
    pub fn lookup(&self, path: &str) -> (r: Option<(RouteHandle, Params)>)
        ensures
            r matches Some((h, ps)) ==> spec_node_lookup(self@, path@) == Some((
                h,
                ps.deep_view(),
            )),
            r is None ==> spec_node_lookup(self@, path@) is None,
    {
        let key = path.to_owned();
        match self.statics.get(&key) {
            Some(h) => {
                let ps: Params = Vec::new();
                proof {
                    assert(ps.deep_view() =~= no_params());
                }
                Some((*h, ps))
            },
            None => {
                let n = self.patterns.len();
                let mut i: usize = 0;
                while i < n
                    invariant
                        n == self.patterns@.len(),
                        i <= n,
                        !self@.statics.contains_key(path@),
                        forall|j: int|
                            0 <= j < i ==> !rule_is_match(#[trigger] self@.patterns[j].0, path@),
                    decreases n - i,
                {
                    let pr: &(Pattern, RouteHandle) = &self.patterns[i];
                    proof {
                        assert(self@.patterns[i as int] == (pr.0@, pr.1));
                    }
                    match pr.0.try_match(path) {
                        Some(ps) => {
                            proof {
                                lemma_pattern_lookup_at(self@.patterns, path@, i as int);
                            }
                            return Some((pr.1, ps));
                        },
                        None => {},
                    }
                    i += 1;
                }
                proof {
                    lemma_pattern_lookup_none(self@.patterns, path@);
                }
                None
            },
        }
    }
}

} // verus!
