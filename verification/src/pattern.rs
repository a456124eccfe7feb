//! The boundary with the pattern-matching engine. A `Pattern` couples a
//! compiled matcher with the rule string it was compiled from and the ordered
//! list of named capture groups the rule declares; the behaviour of the
//! engine on a given rule and path is named by uninterpreted spec functions,
//! since it depends on the rule and the path alone.
use vstd::prelude::*;

use crate::CompileError;

verus! {

/// Whether the pattern engine accepts `rule`: `regex::Regex::new` succeeds
/// exactly on these rule strings.
pub uninterp spec fn rule_compiles(rule: Seq<char>) -> bool;

/// The named capture groups that `rule` declares, in declaration order, the
/// implicit whole-match group excluded: what `regex::Regex::capture_names`
/// yields after its first element, unnamed groups left out.
pub uninterp spec fn rule_group_names(rule: Seq<char>) -> Seq<Seq<char>>;

/// Whether `rule` matches anywhere in `path`: what `regex::Regex::is_match`
/// returns.
pub uninterp spec fn rule_is_match(rule: Seq<char>, path: Seq<char>) -> bool;

/// The substring that the group named `group` captures in the first match of
/// `rule` in `path`; `None` when the rule does not match `path`, when no
/// group of that name exists, or when the group did not participate in the
/// match.
pub uninterp spec fn rule_capture(rule: Seq<char>, path: Seq<char>, group: Seq<char>) -> Option<
    Seq<char>,
>;

#[verifier::external_type_specification]
#[verifier::external_body]
pub struct ExRegex(regex::Regex);

#[verifier::external_type_specification]
#[verifier::external_body]
pub struct ExRegexError(regex::Error);

/// A compiled pattern route rule: the matcher, the rule it was compiled
/// from, and the named capture groups the rule declares, in order.
pub struct Pattern {
    re: regex::Regex,
    rule: String,
    groups: Vec<String>,
}

impl View for Pattern {
    type V = Seq<char>;

    closed spec fn view(&self) -> Seq<char> {
        self.rule@
    }
}

/// The parameter list a matching rule produces for `path`: each declared
/// group name bound to its captured substring, or to `None` where the group
/// did not participate in the match.
pub open spec fn params_of(rule: Seq<char>, path: Seq<char>) -> Seq<
    (Seq<char>, Option<Seq<char>>),
> {
    rule_group_names(rule).map_values(|g: Seq<char>| (g, rule_capture(rule, path, g)))
}

/// Relies on `regex::Regex::new`: it succeeds exactly on well-formed rules,
/// and the matcher it returns is a function of the rule string alone. The
/// returned `Pattern` pairs that matcher with the rule it came from, and with
/// the group names that `regex::Regex::capture_names` yields (skipping the
/// implicit whole-match group and unnamed groups), which upholds `Pattern`'s
/// invariant.
#[verifier::external_body]
fn compile_raw(rule: &str) -> (r: Result<Pattern, regex::Error>)
    ensures
        r is Ok <==> rule_compiles(rule@),
        r matches Ok(p) ==> p@ == rule@,
        r matches Ok(p) ==> p.groups@.map_values(|g: String| g@) == rule_group_names(rule@),
{
    let re = regex::Regex::new(rule)?;
    let mut names = re.capture_names();
    names.next();
    let groups: Vec<String> = names.flatten().map(str::to_owned).collect();
    Ok(Pattern { re, rule: rule.to_owned(), groups })
}

impl Pattern {
    #[verifier::type_invariant]
    spec fn inv(&self) -> bool {
        &&& rule_compiles(self.rule@)
        &&& self.groups@.map_values(|g: String| g@) == rule_group_names(self.rule@)
    }

    /// Compile `rule`. On failure nothing is produced, so a failed
    /// registration can leave the registry untouched.
    pub fn compile(rule: &str) -> (r: Result<Pattern, CompileError>)
        ensures
            r is Ok <==> rule_compiles(rule@),
            r matches Ok(p) ==> p@ == rule@,
    {
        match compile_raw(rule) {
            Ok(p) => Ok(p),
            Err(_) => Err(CompileError),
        }
    }

    /// Relies on `regex::Regex::is_match`; the matcher was compiled from
    /// `self.rule`, so the result depends on the rule and the path alone.
    #[verifier::external_body]
    fn is_match(&self, path: &str) -> (r: bool)
        ensures
            r == rule_is_match(self@, path@),
    {
        self.re.is_match(path)
    }

    /// Relies on `regex::Regex::captures` and `regex::Captures::name`: the
    /// substring captured by the group named `group` in the first match,
    /// `None` when there is no match, no such group, or the group did not
    /// participate; the matcher was compiled from `self.rule`.
    #[verifier::external_body]
    fn capture(&self, path: &str, group: &str) -> (r: Option<String>)
        ensures
            r is Some <==> rule_capture(self@, path@, group@) is Some,
            r matches Some(c) ==> rule_capture(self@, path@, group@) == Some(c@),
    {
        self.re.captures(path).and_then(|c| c.name(group)).map(|m| m.as_str().to_owned())
    }

    /// If the rule matches `path`, the parameters captured from it: each
    /// declared group name bound to the substring it captured, or to `None`
    /// for a group that did not participate in the match.
    pub fn try_match(&self, path: &str) -> (r: Option<Vec<(String, Option<String>)>>)
        ensures
            r is Some <==> rule_is_match(self@, path@),
            r matches Some(ps) ==> ps.deep_view() == params_of(self@, path@),
    {
        proof {
            use_type_invariant(self);
        }
        if !self.is_match(path) {
            return None;
        }
        let n = self.groups.len();
        let mut params: Vec<(String, Option<String>)> = Vec::new();
        let mut i: usize = 0;
        while i < n
            invariant
                n == self.groups@.len(),
                i <= n,
                self.inv(),
                params@.len() == i,
                forall|j: int|
                    0 <= j < i ==> params.deep_view()[j] == params_of(self@, path@)[j],
            decreases n - i,
        {
            let g: &String = &self.groups[i];
            proof {
                assert(self.groups@.map_values(|g2: String| g2@)[i as int] == g@);
            }
            let c = self.capture(path, g.as_str());
            let gname = g.clone();
            let ghost prev = params@;
            let ghost prev_dv = params.deep_view();
            params.push((gname, c));
            proof {
                let gn = rule_group_names(self@);
                assert(gn[i as int] == g@);
                if c is Some {
                    assert(c.deep_view() == rule_capture(self@, path@, g@));
                } else {
                    assert(rule_capture(self@, path@, g@) is None);
                }
                assert(params@[i as int].deep_view() == (g@, rule_capture(self@, path@, g@)));
                assert(params.deep_view()[i as int] == params_of(self@, path@)[i as int]);
                assert(forall|j: int|
                    0 <= j < i ==> params@[j] == prev[j] && #[trigger] params.deep_view()[j]
                        == prev[j].deep_view() && prev_dv[j] == prev[j].deep_view());
            }
            i += 1;
        }
        proof {
            assert(params.deep_view() =~= params_of(self@, path@));
        }
        Some(params)
    }
}

} // verus!
