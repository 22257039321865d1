use slot::error::AuthError;
use slot::listener::LocalAddr;
use slot::server::{CallbackOutcome, HttpMethod, LocalServer, ServerPhase};
use slot::signal::ShutdownSignal;

fn serving_server(port: u16) -> LocalServer {
    let addr = LocalAddr::bound([127, 0, 0, 1], port).unwrap();
    let mut server = LocalServer::new(addr);
    assert_eq!(server.phase(), ServerPhase::Idle);
    server.start();
    assert_eq!(server.phase(), ServerPhase::Serving);
    server
}

#[test]
fn callback_with_code_is_granted_and_stops() {
    let mut server = serving_server(40123);
    assert!(!server.shutdown_requested());
    let h = server.handle(HttpMethod::Post, "/callback", Some("xyz-789".to_string()));
    assert_eq!(h.reply.status, 200);
    assert_eq!(h.reply.body, "{\"success\":true}");
    assert!(h.notify_shutdown);
    assert!(server.shutdown_requested());
    let r = server.finish();
    assert_eq!(server.phase(), ServerPhase::Stopped);
    assert_eq!(
        r.unwrap(),
        CallbackOutcome::AuthorizationGranted { code: "xyz-789".to_string() }
    );
}

#[test]
fn callback_without_code_is_denied_and_stops() {
    let mut server = serving_server(40124);
    let h = server.handle(HttpMethod::Post, "/callback", None);
    assert_eq!(h.reply.status, 200);
    assert_eq!(h.reply.body, "{\"success\":true}");
    assert!(h.notify_shutdown);
    assert!(server.shutdown_requested());
    assert_eq!(server.finish().unwrap(), CallbackOutcome::AuthorizationDenied);
    assert_eq!(server.phase(), ServerPhase::Stopped);
}

#[test]
fn duplicate_callback_keeps_first_outcome() {
    let mut server = serving_server(40125);
    let first = server.handle(HttpMethod::Post, "/callback", Some("first".to_string()));
    let second = server.handle(HttpMethod::Post, "/callback", Some("second".to_string()));
    assert!(first.notify_shutdown);
    assert!(!second.notify_shutdown);
    assert_eq!(second.reply.status, 200);
    assert_eq!(second.reply.body, "{\"success\":true}");
    let third = server.handle(HttpMethod::Post, "/callback", None);
    assert_eq!(third.reply.status, 200);
    assert!(!third.notify_shutdown);
    assert_eq!(
        server.finish().unwrap(),
        CallbackOutcome::AuthorizationGranted { code: "first".to_string() }
    );
}

#[test]
fn signal_twice_is_a_noop() {
    let mut s = ShutdownSignal::new();
    assert!(!s.is_signaled());
    assert!(!s.wait());
    assert!(s.signal());
    assert!(!s.signal());
    assert!(s.is_signaled());
    assert!(s.wait());
    assert!(s.wait());
}

#[test]
fn manual_callback_after_browser_failure_is_granted() {
    let addr = LocalAddr::bound([127, 0, 0, 1], 51234).unwrap();
    let (mut server, url) = slot::flow::prepare(Ok(addr)).unwrap();
    assert!(url.contains(":51234"));
    // the browser failed to open; the user visits the callback by hand
    let _failure = AuthError::BrowserOpenFailure { message: "no browser".to_string() };
    server.start();
    let h = server.handle(HttpMethod::Post, "/callback", Some("abc123".to_string()));
    assert_eq!(h.reply.status, 200);
    assert!(server.shutdown_requested());
    let outcome = server.finish().unwrap();
    assert_eq!(outcome, CallbackOutcome::AuthorizationGranted { code: "abc123".to_string() });
    assert_eq!(slot::flow::authorization_code(Ok(outcome)).unwrap(), "abc123");
}

#[test]
fn callback_with_no_query_is_denied_with_200() {
    let mut server = serving_server(40126);
    let h = server.handle(HttpMethod::Post, "/callback", None);
    assert_eq!(h.reply.status, 200);
    assert!(server.shutdown_requested());
    let outcome = server.finish().unwrap();
    assert_eq!(outcome, CallbackOutcome::AuthorizationDenied);
    assert!(matches!(
        slot::flow::authorization_code(Ok(outcome)),
        Err(AuthError::AuthorizationDenied)
    ));
}

#[test]
fn unrelated_path_does_not_shut_down() {
    let mut server = serving_server(40127);
    let h = server.handle(HttpMethod::Get, "/health", None);
    assert_eq!(h.reply.status, 404);
    assert_eq!(h.reply.body, "");
    assert!(!h.notify_shutdown);
    let h = server.handle(HttpMethod::Post, "/callbacks", Some("nope".to_string()));
    assert_eq!(h.reply.status, 404);
    assert!(!server.shutdown_requested());
    let h = server.handle(HttpMethod::Post, "/callback", Some("real".to_string()));
    assert!(h.notify_shutdown);
    assert_eq!(
        server.finish().unwrap(),
        CallbackOutcome::AuthorizationGranted { code: "real".to_string() }
    );
}

#[test]
fn other_method_on_callback_is_not_allowed() {
    let mut server = serving_server(40128);
    let h = server.handle(HttpMethod::Get, "/callback", Some("abc".to_string()));
    assert_eq!(h.reply.status, 405);
    assert!(!h.notify_shutdown);
    assert!(!server.shutdown_requested());
}

#[test]
fn handler_failure_answers_500_and_still_stops() {
    let mut server = serving_server(40129);
    let h = server.fail("bad \"query\"");
    assert_eq!(h.reply.status, 500);
    assert_eq!(h.reply.body, "{\"error\":\"bad \\\"query\\\"\"}");
    assert!(h.notify_shutdown);
    assert!(server.shutdown_requested());
    match server.finish() {
        Err(AuthError::HandlerInternalError { message }) => assert_eq!(message, "bad \"query\""),
        other => panic!("unexpected result {:?}", other),
    }
}

#[test]
fn internal_error_reply_quotes_message() {
    let r = slot::server::internal_error_reply("closed");
    assert_eq!(r.status, 500);
    assert_eq!(r.body, "{\"error\":\"closed\"}");
    assert_eq!(slot::server::error_body("\"x\""), "{\"error\":\"x\"}");
}

#[test]
fn outcome_wins_over_later_failure() {
    let mut server = serving_server(40130);
    server.handle(HttpMethod::Post, "/callback", Some("c".to_string()));
    let h = server.fail("late");
    assert!(!h.notify_shutdown);
    assert_eq!(
        server.finish().unwrap(),
        CallbackOutcome::AuthorizationGranted { code: "c".to_string() }
    );
}

#[test]
fn stop_without_callback_has_no_outcome() {
    let mut server = serving_server(40131);
    assert!(!server.shutdown_requested());
    assert!(matches!(server.finish(), Err(AuthError::ShutdownWithoutOutcome)));
    assert_eq!(server.phase(), ServerPhase::Stopped);
}

#[test]
fn server_keeps_its_address() {
    let server = serving_server(40132);
    let addr = server.local_addr();
    assert_eq!(addr.port, 40132);
    assert_eq!(addr.ip, [127, 0, 0, 1]);
}

#[test]
fn outcome_notices() {
    let g = CallbackOutcome::AuthorizationGranted { code: "q1".to_string() };
    assert_eq!(g.notice(), "auth_code: q1");
    assert_eq!(CallbackOutcome::AuthorizationDenied.notice(), "User denied consent. Try again.");
    assert_eq!(g.duplicate(), g);
}

#[test]
fn callback_route_is_post_on_callback_path() {
    assert!(slot::server::is_callback_route(HttpMethod::Post, "/callback"));
    assert!(!slot::server::is_callback_route(HttpMethod::Get, "/callback"));
    assert!(!slot::server::is_callback_route(HttpMethod::Post, "/health"));
}
