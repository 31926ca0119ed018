use webkit::geolocation::{GeolocationProvider, INTERVAL_HIGH_ACCURACY, INTERVAL_NORMAL};
use webkit::WebKitError;

fn engine_error_text(r: Result<(), WebKitError>) -> String {
    match r {
        Err(WebKitError::Engine(m)) => m,
        other => panic!("expected an engine error, got {:?}", other),
    }
}

#[test]
fn attach_only_once() {
    let mut p = GeolocationProvider::new();
    assert!(p.begin_attach());
    assert!(p.finish_attach(true, true).is_ok());
    assert!(!p.begin_attach());
    assert!(!p.begin_attach());
}

#[test]
fn concurrent_attach_does_not_hook_twice() {
    let mut p = GeolocationProvider::new();
    assert!(p.begin_attach());
    assert!(!p.begin_attach());
    assert!(p.finish_attach(true, true).is_ok());
    assert!(!p.begin_attach());
}

#[test]
fn attach_without_web_context_fails_and_is_retried() {
    let mut p = GeolocationProvider::new();
    assert!(p.begin_attach());
    assert_eq!(engine_error_text(p.finish_attach(false, false)), "no default web context");
    assert!(p.begin_attach());
    assert_eq!(engine_error_text(p.finish_attach(false, true)), "no default web context");
    assert!(p.begin_attach());
    assert!(p.finish_attach(true, true).is_ok());
    assert!(!p.begin_attach());
}

#[test]
fn attach_without_geolocation_manager_fails_and_is_retried() {
    let mut p = GeolocationProvider::new();
    assert!(p.begin_attach());
    assert_eq!(
        engine_error_text(p.finish_attach(true, false)),
        "engine has no geolocation manager"
    );
    assert!(p.begin_attach());
}

#[test]
fn one_worker_per_active_period() {
    let mut p = GeolocationProvider::new();
    assert!(!p.is_active());
    assert!(p.start(false));
    assert!(p.is_active());
    assert!(!p.start(true));
    p.stop();
    assert!(!p.is_active());
    assert!(p.start(false));
}

#[test]
fn update_cadence() {
    let mut p = GeolocationProvider::new();
    assert_eq!(p.update_interval(), 30);
    assert_eq!(p.wait_steps(), 300);
    p.start(true);
    assert_eq!(p.update_interval(), 2);
    assert_eq!(p.wait_steps(), 20);
    p.set_high_accuracy(false);
    assert_eq!(p.update_interval(), INTERVAL_NORMAL);
    p.set_high_accuracy(true);
    assert_eq!(p.update_interval(), INTERVAL_HIGH_ACCURACY);
}
