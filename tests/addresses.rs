use slot::browser::Browser;
use slot::error::AuthError;
use slot::listener::LocalAddr;
use slot::text::{decimal_string, str_equals};

#[test]
fn bound_port_is_never_zero() {
    assert!(matches!(LocalAddr::bound([0, 0, 0, 0], 0), Err(AuthError::BindFailure { .. })));
    let addr = LocalAddr::bound([0, 0, 0, 0], 8).unwrap();
    assert_eq!(addr.port, 8);
    let target = LocalAddr::bind_target();
    assert_eq!(target.ip, [0, 0, 0, 0]);
    assert_eq!(target.port, 0);
}

#[test]
fn url_contains_exact_port() {
    let addr = LocalAddr::bound([0, 0, 0, 0], 54321).unwrap();
    let url = Browser::authorization_url(&addr);
    assert_eq!(url, "https://x.cartridge.gg/auth?redirect_url=http://0.0.0.0:54321");
    assert!(url.ends_with(":54321"));
    let addr = LocalAddr::bound([192, 168, 10, 255], 65535).unwrap();
    assert_eq!(
        Browser::authorization_url(&addr),
        "https://x.cartridge.gg/auth?redirect_url=http://192.168.10.255:65535"
    );
}

#[test]
fn address_text() {
    let addr = LocalAddr::bound([127, 0, 0, 1], 1).unwrap();
    assert_eq!(addr.to_text(), "127.0.0.1:1");
}

#[test]
fn open_notice_shows_url() {
    assert_eq!(
        Browser::open_notice("https://a/b"),
        "Your browser has been opened to visit: \n\n    https://a/b\n"
    );
}

#[test]
fn prepare_fails_on_bind_failure() {
    let r = slot::flow::prepare(Err(AuthError::BindFailure { message: "in use".to_string() }));
    match r {
        Err(AuthError::BindFailure { message }) => assert_eq!(message, "in use"),
        _ => panic!("expected a bind failure"),
    }
}

#[test]
fn authorization_code_passes_errors_on() {
    let r = slot::flow::authorization_code(Err(AuthError::ShutdownWithoutOutcome));
    assert!(matches!(r, Err(AuthError::ShutdownWithoutOutcome)));
}

#[test]
fn decimal_texts() {
    assert_eq!(decimal_string(0), "0");
    assert_eq!(decimal_string(7), "7");
    assert_eq!(decimal_string(10), "10");
    assert_eq!(decimal_string(12345), "12345");
    assert_eq!(decimal_string(u64::MAX), "18446744073709551615");
}

#[test]
fn string_equality() {
    assert!(str_equals("", ""));
    assert!(str_equals("/callback", "/callback"));
    assert!(!str_equals("/callback", "/callbacK"));
    assert!(!str_equals("/call", "/callback"));
}
