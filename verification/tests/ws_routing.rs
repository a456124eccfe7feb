use route_core::CompileError;
use route_core::SchemeClass;
use route_core::ws::WsRouter;

#[test]
fn ws_empty_registry_misses_everywhere() {
    let r = WsRouter::new();
    let m = r.match_route_direct("/a");
    assert!(m.handle.is_none());
    assert!(m.params.is_empty());
    let m = r.match_route_scheme(SchemeClass::Plain, "/a");
    assert!(m.handle.is_none());
    let m = r.match_route_host("example.org", "/a");
    assert!(m.handle.is_none());
    let m = r.match_route_all("example.org", SchemeClass::Secure, "/a");
    assert!(m.handle.is_none());
    assert!(m.params.is_empty());
}

#[test]
fn ws_static_route_resolves() {
    let mut r = WsRouter::new();
    r.add_static_route(7, "/sock", None, SchemeClass::Any);
    let m = r.match_route_direct("/sock");
    assert_eq!(m.handle, Some(7));
    assert!(m.params.is_empty());
}

#[test]
fn ws_static_route_resolves_fully_qualified() {
    let mut r = WsRouter::new();
    r.add_static_route(8, "/sock", Some("example.org"), SchemeClass::Secure);
    let m = r.match_route_all("example.org", SchemeClass::Secure, "/sock");
    assert_eq!(m.handle, Some(8));
}

#[test]
fn ws_pattern_capture_group() {
    let mut r = WsRouter::new();
    r.add_re_route(5, "^/room/(?P<id>[0-9]+)$", None, SchemeClass::Any)
        .unwrap();
    let m = r.match_route_direct("/room/42");
    assert_eq!(m.handle, Some(5));
    assert_eq!(m.params.len(), 1);
    assert_eq!(m.params[0].0, "id");
    assert_eq!(m.params[0].1.as_deref(), Some("42"));
}

#[test]
fn ws_first_registered_pattern_wins() {
    let mut r = WsRouter::new();
    r.add_re_route(1, "^/x/[0-9]+$", None, SchemeClass::Any)
        .unwrap();
    r.add_re_route(2, "^/x/42$", None, SchemeClass::Any)
        .unwrap();
    let m = r.match_route_direct("/x/42");
    assert_eq!(m.handle, Some(1));
}

#[test]
fn ws_static_precedence_over_pattern() {
    let mut r = WsRouter::new();
    r.add_re_route(1, "^/a$", None, SchemeClass::Any).unwrap();
    r.add_static_route(2, "/a", None, SchemeClass::Any);
    let m = r.match_route_direct("/a");
    assert_eq!(m.handle, Some(2));
    assert!(m.params.is_empty());
}

#[test]
fn ws_any_scheme_route_visible_to_scheme_query() {
    let mut r = WsRouter::new();
    r.add_static_route(3, "/a", None, SchemeClass::Any);
    let m = r.match_route_scheme(SchemeClass::Secure, "/a");
    assert_eq!(m.handle, Some(3));
}

#[test]
fn ws_unregistered_host_falls_back_to_default_tree() {
    let mut r = WsRouter::new();
    r.add_static_route(4, "/a", None, SchemeClass::Any);
    let m = r.match_route_host("nowhere.example", "/a");
    assert_eq!(m.handle, Some(4));
    let m = r.match_route_all("nowhere.example", SchemeClass::Plain, "/a");
    assert_eq!(m.handle, Some(4));
}

#[test]
fn ws_repeated_static_registration_keeps_last_handle() {
    let mut r = WsRouter::new();
    r.add_static_route(1, "/a", None, SchemeClass::Any);
    r.add_static_route(2, "/a", None, SchemeClass::Any);
    let m = r.match_route_direct("/a");
    assert_eq!(m.handle, Some(2));
}

#[test]
fn ws_malformed_rule_rejected_without_side_effect() {
    let mut r = WsRouter::new();
    let e = r.add_re_route(1, "(unclosed", None, SchemeClass::Any);
    assert_eq!(e, Err(CompileError));
    let m = r.match_route_direct("(unclosed");
    assert!(m.handle.is_none());
}
