use route_core::CompileError;
use route_core::SchemeClass;
use route_core::http::HttpRouter;

fn empty_params(params: &Vec<(String, Option<String>)>) -> bool {
    params.is_empty()
}

#[test]
fn empty_registry_misses_everywhere() {
    let r = HttpRouter::new();
    let m = r.match_route_direct("GET", "/a");
    assert!(m.handle.is_none());
    assert!(empty_params(&m.params));
    let m = r.match_route_scheme(SchemeClass::Secure, "GET", "/a");
    assert!(m.handle.is_none());
    assert!(empty_params(&m.params));
    let m = r.match_route_host("example.org", "GET", "/a");
    assert!(m.handle.is_none());
    assert!(empty_params(&m.params));
    let m = r.match_route_all("example.org", SchemeClass::Plain, "GET", "/a");
    assert!(m.handle.is_none());
    assert!(empty_params(&m.params));
}

#[test]
fn static_route_resolves_direct() {
    let mut r = HttpRouter::new();
    r.add_static_route(7, "/a", "GET", None, SchemeClass::Any);
    let m = r.match_route_direct("GET", "/a");
    assert_eq!(m.handle, Some(7));
    assert!(empty_params(&m.params));
}

#[test]
fn static_route_resolves_fully_qualified() {
    let mut r = HttpRouter::new();
    r.add_static_route(11, "/a", "GET", Some("example.org"), SchemeClass::Secure);
    let m = r.match_route_all("example.org", SchemeClass::Secure, "GET", "/a");
    assert_eq!(m.handle, Some(11));
    assert!(empty_params(&m.params));
}

#[test]
fn static_route_resolves_host_qualified() {
    let mut r = HttpRouter::new();
    r.add_static_route(12, "/a", "GET", Some("example.org"), SchemeClass::Any);
    let m = r.match_route_host("example.org", "GET", "/a");
    assert_eq!(m.handle, Some(12));
    assert!(empty_params(&m.params));
}

#[test]
fn first_registered_pattern_wins() {
    let mut r = HttpRouter::new();
    r.add_re_route(1, "^/x/[0-9]+$", "GET", None, SchemeClass::Any)
        .unwrap();
    r.add_re_route(2, "^/x/42$", "GET", None, SchemeClass::Any)
        .unwrap();
    let m = r.match_route_direct("GET", "/x/42");
    assert_eq!(m.handle, Some(1));
}

#[test]
fn pattern_capture_group() {
    let mut r = HttpRouter::new();
    r.add_re_route(5, "^/items/(?P<id>[0-9]+)$", "GET", None, SchemeClass::Any)
        .unwrap();
    let m = r.match_route_direct("GET", "/items/42");
    assert_eq!(m.handle, Some(5));
    assert_eq!(m.params.len(), 1);
    assert_eq!(m.params[0].0, "id");
    assert_eq!(m.params[0].1.as_deref(), Some("42"));
}

#[test]
fn pattern_group_absent_binds_none() {
    let mut r = HttpRouter::new();
    r.add_re_route(6, "^/(?:(?P<a>a)|(?P<b>b))$", "GET", None, SchemeClass::Any)
        .unwrap();
    let m = r.match_route_direct("GET", "/a");
    assert_eq!(m.handle, Some(6));
    assert_eq!(m.params.len(), 2);
    assert_eq!(m.params[0].0, "a");
    assert_eq!(m.params[0].1.as_deref(), Some("a"));
    assert_eq!(m.params[1].0, "b");
    assert_eq!(m.params[1].1, None);
}

#[test]
fn static_precedence_over_pattern() {
    let mut r = HttpRouter::new();
    r.add_re_route(1, "^/a$", "GET", None, SchemeClass::Any)
        .unwrap();
    r.add_static_route(2, "/a", "GET", None, SchemeClass::Any);
    let m = r.match_route_direct("GET", "/a");
    assert_eq!(m.handle, Some(2));
    assert!(empty_params(&m.params));
}

#[test]
fn method_is_never_relaxed() {
    let mut r = HttpRouter::new();
    r.add_static_route(1, "/x", "GET", None, SchemeClass::Any);
    let m = r.match_route_direct("POST", "/x");
    assert!(m.handle.is_none());
    assert!(empty_params(&m.params));
    let m = r.match_route_scheme(SchemeClass::Plain, "POST", "/x");
    assert!(m.handle.is_none());
}

#[test]
fn any_scheme_route_visible_to_scheme_query() {
    let mut r = HttpRouter::new();
    r.add_static_route(3, "/a", "GET", None, SchemeClass::Any);
    let m = r.match_route_scheme(SchemeClass::Secure, "GET", "/a");
    assert_eq!(m.handle, Some(3));
    let m = r.match_route_scheme(SchemeClass::Plain, "GET", "/a");
    assert_eq!(m.handle, Some(3));
}

#[test]
fn scheme_specific_route_invisible_to_other_scheme() {
    let mut r = HttpRouter::new();
    r.add_static_route(3, "/a", "GET", None, SchemeClass::Plain);
    let m = r.match_route_scheme(SchemeClass::Secure, "GET", "/a");
    assert!(m.handle.is_none());
    let m = r.match_route_scheme(SchemeClass::Plain, "GET", "/a");
    assert_eq!(m.handle, Some(3));
}

#[test]
fn scheme_specific_route_shadows_any() {
    let mut r = HttpRouter::new();
    r.add_static_route(1, "/a", "GET", None, SchemeClass::Any);
    r.add_static_route(2, "/a", "GET", None, SchemeClass::Secure);
    let m = r.match_route_scheme(SchemeClass::Secure, "GET", "/a");
    assert_eq!(m.handle, Some(2));
    let m = r.match_route_scheme(SchemeClass::Plain, "GET", "/a");
    assert_eq!(m.handle, Some(1));
}

#[test]
fn unregistered_host_falls_back_to_default_tree() {
    let mut r = HttpRouter::new();
    r.add_static_route(4, "/a", "GET", None, SchemeClass::Any);
    let m = r.match_route_host("nowhere.example", "GET", "/a");
    assert_eq!(m.handle, Some(4));
    let m = r.match_route_all("nowhere.example", SchemeClass::Secure, "GET", "/a");
    assert_eq!(m.handle, Some(4));
}

#[test]
fn registered_host_still_falls_back_for_other_paths() {
    let mut r = HttpRouter::new();
    r.add_static_route(1, "/only-here", "GET", Some("example.org"), SchemeClass::Any);
    r.add_static_route(2, "/default", "GET", None, SchemeClass::Any);
    let m = r.match_route_all("example.org", SchemeClass::Plain, "GET", "/default");
    assert_eq!(m.handle, Some(2));
    let m = r.match_route_host("example.org", "GET", "/default");
    assert_eq!(m.handle, Some(2));
}

#[test]
fn host_route_shadows_default_tree() {
    let mut r = HttpRouter::new();
    r.add_static_route(1, "/a", "GET", None, SchemeClass::Any);
    r.add_static_route(2, "/a", "GET", Some("example.org"), SchemeClass::Any);
    let m = r.match_route_host("example.org", "GET", "/a");
    assert_eq!(m.handle, Some(2));
    let m = r.match_route_host("elsewhere.example", "GET", "/a");
    assert_eq!(m.handle, Some(1));
}

#[test]
fn repeated_static_registration_keeps_last_handle() {
    let mut r = HttpRouter::new();
    r.add_static_route(1, "/a", "GET", None, SchemeClass::Any);
    r.add_static_route(2, "/a", "GET", None, SchemeClass::Any);
    let m = r.match_route_direct("GET", "/a");
    assert_eq!(m.handle, Some(2));
}

#[test]
fn malformed_rule_rejected_without_side_effect() {
    let mut r = HttpRouter::new();
    let e = r.add_re_route(1, "foo(", "GET", None, SchemeClass::Any);
    assert_eq!(e, Err(CompileError));
    let m = r.match_route_direct("GET", "foo(");
    assert!(m.handle.is_none());
    let m = r.match_route_direct("GET", "foo");
    assert!(m.handle.is_none());
}

#[test]
fn pattern_routes_are_method_and_host_scoped() {
    let mut r = HttpRouter::new();
    r.add_re_route(9, "^/p/(?P<n>[a-z]+)$", "PUT", Some("example.org"), SchemeClass::Secure)
        .unwrap();
    let m = r.match_route_all("example.org", SchemeClass::Secure, "PUT", "/p/abc");
    assert_eq!(m.handle, Some(9));
    assert_eq!(m.params.len(), 1);
    assert_eq!(m.params[0].0, "n");
    assert_eq!(m.params[0].1.as_deref(), Some("abc"));
    let m = r.match_route_all("example.org", SchemeClass::Secure, "GET", "/p/abc");
    assert!(m.handle.is_none());
    let m = r.match_route_all("example.org", SchemeClass::Plain, "PUT", "/p/abc");
    assert!(m.handle.is_none());
}

#[test]
fn duplicate_pattern_rule_appends_and_first_wins() {
    let mut r = HttpRouter::new();
    r.add_re_route(1, "^/d$", "GET", None, SchemeClass::Any)
        .unwrap();
    r.add_re_route(2, "^/d$", "GET", None, SchemeClass::Any)
        .unwrap();
    let m = r.match_route_direct("GET", "/d");
    assert_eq!(m.handle, Some(1));
}
