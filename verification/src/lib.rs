//! A request-routing core: routes are registered under an optional virtual
//! host, a scheme class and (for the HTTP variant) a method, either as exact
//! paths or as pattern rules with named capture groups; queries walk a fixed
//! fallback chain (host-specific tree before the default tree, scheme slot
//! before the "any" slot) and return the matched handle together with the
//! captured path parameters.
use vstd::prelude::*;

pub mod http;
pub mod node;
pub mod pattern;
pub mod strmap;
pub mod ws;

verus! {

/// An opaque, caller-supplied reference to a handler. The core never
/// inspects it; callers typically use it as an index into their own table.
pub type RouteHandle = u64;

/// A pattern rule was rejected by the pattern engine at registration time;
/// the registry is left exactly as it was.
#[derive(Clone, Copy, PartialEq, Eq, Structural, Debug)]
pub struct CompileError;

/// The scheme qualifier of a route: visible only to secure requests, only to
/// plain ones, or to both.
#[derive(Clone, Copy, PartialEq, Eq, Structural, Debug)]
pub enum SchemeClass {
    Secure,
    Plain,
    Any,
}

/// The model of an optional virtual-host qualifier: the host's characters,
/// or `None` for the default, host-less table.
pub open spec fn host_key(host: Option<&str>) -> Option<Seq<char>> {
    match host {
        Some(h) => Some(h@),
        None => None,
    }
}

} // verus!
