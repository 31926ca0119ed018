use webkit::data_store::{
    clear_all_request, clear_caches_request, clear_cookies_request, clear_request, clear_result,
    timespan_micros, WebsiteDataFlags,
};
use webkit::{WebKitError, WebsiteData, WebsiteDataType};

fn engine_flags() -> WebsiteDataFlags {
    WebsiteDataFlags {
        memory_cache: 1,
        disk_cache: 2,
        offline_application_cache: 4,
        session_storage: 8,
        local_storage: 16,
        indexeddb_databases: 32,
        cookies: 64,
        device_id_hash_salt: 128,
        hsts_cache: 256,
        itp: 512,
        service_worker_registrations: 1024,
        dom_cache: 2048,
    }
}

#[test]
fn selection_helpers() {
    let all = WebsiteDataType::all();
    assert!(all.memory_cache && all.cookies && all.dom_cache && all.itp);
    let none = WebsiteDataType::none();
    assert!(!none.memory_cache && !none.cookies && !none.dom_cache);
    let cookies = WebsiteDataType::cookies();
    assert_eq!(cookies, WebsiteDataType { cookies: true, ..WebsiteDataType::none() });
    let caches = WebsiteDataType::caches();
    assert!(caches.memory_cache && caches.disk_cache && caches.offline_application_cache && caches.dom_cache);
    assert!(!caches.cookies && !caches.local_storage && !caches.session_storage);
}

#[test]
fn engine_masks() {
    let f = engine_flags();
    assert_eq!(WebsiteDataType::all().as_ffi(&f), 4095);
    assert_eq!(WebsiteDataType::none().as_ffi(&f), 0);
    assert_eq!(WebsiteDataType::cookies().as_ffi(&f), 64);
    assert_eq!(WebsiteDataType::caches().as_ffi(&f), 1 | 2 | 4 | 2048);
}

#[test]
fn mask_bits_identify_the_selection() {
    let f = engine_flags();
    let t = WebsiteDataType { local_storage: true, hsts_cache: true, ..WebsiteDataType::none() };
    let m = t.as_ffi(&f);
    assert_eq!(m, 16 | 256);
    assert_eq!((m >> 4) & 1, 1);
    assert_eq!((m >> 8) & 1, 1);
    assert_eq!((m >> 6) & 1, 0);
    assert_eq!(m >> 12, 0);
}

#[test]
fn timespans_are_capped_microseconds() {
    assert_eq!(timespan_micros(7 * 24 * 3600, 0), 604_800_000_000);
    assert_eq!(timespan_micros(1, 999_999_999), 1_999_999);
    assert_eq!(timespan_micros(0, 1_500), 1);
    assert_eq!(timespan_micros(u64::MAX, 0), i64::MAX);
}

#[test]
fn clear_requests() {
    let all = clear_all_request();
    assert_eq!(all.types, WebsiteDataType::all());
    assert_eq!(all.timespan, -1);
    let cookies = clear_cookies_request();
    assert_eq!(cookies.types, WebsiteDataType::cookies());
    assert_eq!(cookies.timespan, i64::MAX);
    let caches = clear_caches_request();
    assert_eq!(caches.types, WebsiteDataType::caches());
    assert_eq!(caches.timespan, i64::MAX);
    let r = clear_request(WebsiteDataType::none(), 60, 0);
    assert_eq!(r.timespan, 60_000_000);
}

#[test]
fn clear_replies() {
    assert!(clear_result(Some(Ok(()))).is_ok());
    match clear_result(Some(Err("boom".to_string()))) {
        Err(WebKitError::Engine(m)) => assert_eq!(m, "boom"),
        other => panic!("unexpected {:?}", other),
    }
    match clear_result(None) {
        Err(WebKitError::Engine(m)) => assert_eq!(m, "website data clear was cancelled"),
        other => panic!("unexpected {:?}", other),
    }
}

#[test]
fn website_data_snapshot() {
    let d = WebsiteData { types: WebsiteDataType::cookies(), size: 42 };
    assert_eq!(d.size, 42);
    assert!(d.types.cookies);
}
