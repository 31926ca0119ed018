use webkit::cookie::EngineCookiePolicy;
use webkit::{Cookie, CookieAcceptPolicy, CookieStorage};

#[test]
fn new_cookie_is_a_plain_session_cookie() {
    let c = Cookie::new("session", "abc", "example.com");
    assert_eq!(c.name, "session");
    assert_eq!(c.value, "abc");
    assert_eq!(c.domain, "example.com");
    assert_eq!(c.path, "/");
    assert!(!c.secure);
    assert!(!c.http_only);
}

#[test]
fn cookie_builders() {
    let c = Cookie::new("a", "b", "c").path("/app").secure(true).http_only(true);
    assert_eq!(c.path, "/app");
    assert!(c.secure);
    assert!(c.http_only);
    assert_eq!(c.name, "a");
}

#[test]
fn engine_cookie_fields_default_to_empty() {
    let c = Cookie::from_engine_fields(Some("n".into()), None, Some("d".into()), None, true, false);
    assert_eq!(c.name, "n");
    assert_eq!(c.value, "");
    assert_eq!(c.domain, "d");
    assert_eq!(c.path, "");
    assert!(c.secure);
    assert!(!c.http_only);
}

#[test]
fn engine_accept_policies() {
    assert_eq!(CookieAcceptPolicy::from_engine(EngineCookiePolicy::Always), CookieAcceptPolicy::Always);
    assert_eq!(CookieAcceptPolicy::from_engine(EngineCookiePolicy::Never), CookieAcceptPolicy::Never);
    assert_eq!(
        CookieAcceptPolicy::from_engine(EngineCookiePolicy::NoThirdParty),
        CookieAcceptPolicy::NoThirdParty
    );
    assert_eq!(CookieAcceptPolicy::from_engine(EngineCookiePolicy::Other), CookieAcceptPolicy::Always);
    assert_ne!(CookieStorage::Text, CookieStorage::Sqlite);
}

#[test]
fn accept_policies_round_trip_through_the_engine() {
    for p in [CookieAcceptPolicy::Always, CookieAcceptPolicy::NoThirdParty, CookieAcceptPolicy::Never] {
        let e = p.to_engine();
        assert_ne!(e, EngineCookiePolicy::Other);
        assert_eq!(CookieAcceptPolicy::from_engine(e), p);
    }
    assert_eq!(CookieAcceptPolicy::NoThirdParty.to_engine(), EngineCookiePolicy::NoThirdParty);
    assert_eq!(CookieAcceptPolicy::Never.to_engine(), EngineCookiePolicy::Never);
}
