//! Website data selection, the part of `WKWebsiteDataStore` in Apple WebKit
//! that decides what is cleared.
//!
//! [`WebsiteDataType`] selects kinds of stored website data; a
//! [`ClearRequest`] says what the engine is asked to clear and over which
//! time span, and [`clear_result`] turns the engine's reply into the
//! framework's result.

use vstd::prelude::*;

use crate::error::WebKitError;
use vstd::string::*;

verus! {

/// A subset of website data that can be inspected or cleared.
#[derive(Debug, Clone, Copy, PartialEq, Eq, Structural)]
pub struct WebsiteDataType {
    pub memory_cache: bool,
    pub disk_cache: bool,
    pub offline_application_cache: bool,
    pub session_storage: bool,
    pub local_storage: bool,
    pub indexeddb_databases: bool,
    pub cookies: bool,
    pub device_id_hash_salt: bool,
    pub hsts_cache: bool,
    pub itp: bool,
    pub service_worker_registrations: bool,
    pub dom_cache: bool,
}

/// Every data type, or none, as a selection.
pub open spec fn uniform_selection(b: bool) -> WebsiteDataType {
    WebsiteDataType {
        memory_cache: b,
        disk_cache: b,
        offline_application_cache: b,
        session_storage: b,
        local_storage: b,
        indexeddb_databases: b,
        cookies: b,
        device_id_hash_salt: b,
        hsts_cache: b,
        itp: b,
        service_worker_registrations: b,
        dom_cache: b,
    }
}

impl WebsiteDataType {
    /// Every supported data type.
    pub fn all() -> (r: Self)
        ensures
            r == uniform_selection(true),
    {
        WebsiteDataType {
            memory_cache: true,
            disk_cache: true,
            offline_application_cache: true,
            session_storage: true,
            local_storage: true,
            indexeddb_databases: true,
            cookies: true,
            device_id_hash_salt: true,
            hsts_cache: true,
            itp: true,
            service_worker_registrations: true,
            dom_cache: true,
        }
    }

    /// No data types (useful as a starting point for a builder).
    pub fn none() -> (r: Self)
        ensures
            r == uniform_selection(false),
    {
        WebsiteDataType {
            memory_cache: false,
            disk_cache: false,
            offline_application_cache: false,
            session_storage: false,
            local_storage: false,
            indexeddb_databases: false,
            cookies: false,
            device_id_hash_salt: false,
            hsts_cache: false,
            itp: false,
            service_worker_registrations: false,
            dom_cache: false,
        }
    }

    /// Cookies only.
    pub fn cookies() -> (r: Self)
        ensures
            r == (WebsiteDataType { cookies: true, ..uniform_selection(false) }),
    {
        WebsiteDataType { cookies: true, ..Self::none() }
    }

    /// Caches only: the memory, disk, offline application and DOM caches.
    pub fn caches() -> (r: Self)
        ensures
            r == (WebsiteDataType {
                memory_cache: true,
                disk_cache: true,
                offline_application_cache: true,
                dom_cache: true,
                ..uniform_selection(false)
            }),
    {
        WebsiteDataType {
            memory_cache: true,
            disk_cache: true,
            offline_application_cache: true,
            dom_cache: true,
            ..Self::none()
        }
    }

    /// The engine's bit mask for this selection: the bitwise OR of the
    /// engine flag of every selected data type.
    pub fn as_ffi(&self, flags: &WebsiteDataFlags) -> (r: u32)
        ensures
            r == data_bits(*self, *flags),
    {
        let mut bits: u32 = selected_flag(self.memory_cache, flags.memory_cache);
        bits = bits | selected_flag(self.disk_cache, flags.disk_cache);
        bits = bits | selected_flag(self.offline_application_cache, flags.offline_application_cache);
        bits = bits | selected_flag(self.session_storage, flags.session_storage);
        bits = bits | selected_flag(self.local_storage, flags.local_storage);
        bits = bits | selected_flag(self.indexeddb_databases, flags.indexeddb_databases);
        bits = bits | selected_flag(self.cookies, flags.cookies);
        bits = bits | selected_flag(self.device_id_hash_salt, flags.device_id_hash_salt);
        bits = bits | selected_flag(self.hsts_cache, flags.hsts_cache);
        bits = bits | selected_flag(self.itp, flags.itp);
        bits = bits | selected_flag(self.service_worker_registrations, flags.service_worker_registrations);
        bits = bits | selected_flag(self.dom_cache, flags.dom_cache);
        bits
    }
}

/// The engine's flag for each website data type, as the engine's C
/// interface defines them.
#[derive(Debug, Clone, Copy, PartialEq, Eq, Structural)]
pub struct WebsiteDataFlags {
    pub memory_cache: u32,
    pub disk_cache: u32,
    pub offline_application_cache: u32,
    pub session_storage: u32,
    pub local_storage: u32,
    pub indexeddb_databases: u32,
    pub cookies: u32,
    pub device_id_hash_salt: u32,
    pub hsts_cache: u32,
    pub itp: u32,
    pub service_worker_registrations: u32,
    pub dom_cache: u32,
}

/// `flag` when the type is selected, nothing otherwise.
pub open spec fn flag_if(selected: bool, flag: u32) -> u32 {
    if selected {
        flag
    } else {
        0
    }
}

fn selected_flag(selected: bool, flag: u32) -> (r: u32)
    ensures
        r == flag_if(selected, flag),
{
    if selected {
        flag
    } else {
        0
    }
}

/// The mask of a selection: the OR of the flags of the selected types.
pub open spec fn data_bits(t: WebsiteDataType, f: WebsiteDataFlags) -> u32 {
    flag_if(t.memory_cache, f.memory_cache) | flag_if(t.disk_cache, f.disk_cache) | flag_if(
        t.offline_application_cache,
        f.offline_application_cache,
    ) | flag_if(t.session_storage, f.session_storage) | flag_if(
        t.local_storage,
        f.local_storage,
    ) | flag_if(t.indexeddb_databases, f.indexeddb_databases) | flag_if(t.cookies, f.cookies)
        | flag_if(t.device_id_hash_salt, f.device_id_hash_salt) | flag_if(
        t.hsts_cache,
        f.hsts_cache,
    ) | flag_if(t.itp, f.itp) | flag_if(
        t.service_worker_registrations,
        f.service_worker_registrations,
    ) | flag_if(t.dom_cache, f.dom_cache)
}

/// The engine's flags: one bit per data type, in declaration order from
/// bit 0 (memory cache) to bit 11 (DOM cache).
pub open spec fn single_bit_flags(f: WebsiteDataFlags) -> bool {
    &&& f.memory_cache == 1
    &&& f.disk_cache == 2
    &&& f.offline_application_cache == 4
    &&& f.session_storage == 8
    &&& f.local_storage == 16
    &&& f.indexeddb_databases == 32
    &&& f.cookies == 64
    &&& f.device_id_hash_salt == 128
    &&& f.hsts_cache == 256
    &&& f.itp == 512
    &&& f.service_worker_registrations == 1024
    &&& f.dom_cache == 2048
}

/// Whether bit `i` of `bits` is set.
pub open spec fn bit_set(bits: u32, i: u32) -> bool {
    (bits >> i) & 1u32 == 1u32
}

proof fn lemma_mask_bits(
    b0: bool,
    b1: bool,
    b2: bool,
    b3: bool,
    b4: bool,
    b5: bool,
    b6: bool,
    b7: bool,
    b8: bool,
    b9: bool,
    b10: bool,
    b11: bool,
    m: u32,
) by (bit_vector)
    requires
        m == (if b0 { 1u32 } else { 0u32 }) | (if b1 { 2u32 } else { 0u32 }) | (if b2 {
            4u32
        } else {
            0u32
        }) | (if b3 { 8u32 } else { 0u32 }) | (if b4 { 16u32 } else { 0u32 }) | (if b5 {
            32u32
        } else {
            0u32
        }) | (if b6 { 64u32 } else { 0u32 }) | (if b7 { 128u32 } else { 0u32 }) | (if b8 {
            256u32
        } else {
            0u32
        }) | (if b9 { 512u32 } else { 0u32 }) | (if b10 { 1024u32 } else { 0u32 }) | (if b11 {
            2048u32
        } else {
            0u32
        }),
    ensures
        ((m >> 0u32) & 1u32 == 1u32) == b0,
        ((m >> 1u32) & 1u32 == 1u32) == b1,
        ((m >> 2u32) & 1u32 == 1u32) == b2,
        ((m >> 3u32) & 1u32 == 1u32) == b3,
        ((m >> 4u32) & 1u32 == 1u32) == b4,
        ((m >> 5u32) & 1u32 == 1u32) == b5,
        ((m >> 6u32) & 1u32 == 1u32) == b6,
        ((m >> 7u32) & 1u32 == 1u32) == b7,
        ((m >> 8u32) & 1u32 == 1u32) == b8,
        ((m >> 9u32) & 1u32 == 1u32) == b9,
        ((m >> 10u32) & 1u32 == 1u32) == b10,
        ((m >> 11u32) & 1u32 == 1u32) == b11,
        m >> 12u32 == 0u32,
{
}

/// With the engine's one-bit-per-type flags, the mask of a selection
/// carries exactly the selected types: bit `i` is set precisely when the
/// `i`-th data type is selected, and no bit above the twelve types is set.
/// The selection can therefore be read back from the mask without loss.
pub proof fn lemma_mask_identifies_selection(t: WebsiteDataType, f: WebsiteDataFlags)
    requires
        single_bit_flags(f),
    ensures
        bit_set(data_bits(t, f), 0) == t.memory_cache,
        bit_set(data_bits(t, f), 1) == t.disk_cache,
        bit_set(data_bits(t, f), 2) == t.offline_application_cache,
        bit_set(data_bits(t, f), 3) == t.session_storage,
        bit_set(data_bits(t, f), 4) == t.local_storage,
        bit_set(data_bits(t, f), 5) == t.indexeddb_databases,
        bit_set(data_bits(t, f), 6) == t.cookies,
        bit_set(data_bits(t, f), 7) == t.device_id_hash_salt,
        bit_set(data_bits(t, f), 8) == t.hsts_cache,
        bit_set(data_bits(t, f), 9) == t.itp,
        bit_set(data_bits(t, f), 10) == t.service_worker_registrations,
        bit_set(data_bits(t, f), 11) == t.dom_cache,
        data_bits(t, f) >> 12u32 == 0u32,
{
    lemma_mask_bits(
        t.memory_cache,
        t.disk_cache,
        t.offline_application_cache,
        t.session_storage,
        t.local_storage,
        t.indexeddb_databases,
        t.cookies,
        t.device_id_hash_salt,
        t.hsts_cache,
        t.itp,
        t.service_worker_registrations,
        t.dom_cache,
        data_bits(t, f),
    );
}

/// A snapshot of stored website data.
#[derive(Debug, Clone)]
pub struct WebsiteData {
    /// The data types present for this origin.
    pub types: WebsiteDataType,
    /// Estimated size in bytes.
    pub size: u64,
}

/// What the engine is asked to clear: the selected data types, and the
/// time span in microseconds back from now (`-1` means all time).
#[derive(Debug, Clone, Copy, PartialEq, Eq, Structural)]
pub struct ClearRequest {
    pub types: WebsiteDataType,
    pub timespan: i64,
}

/// A duration of `secs` seconds and `nanos` nanoseconds in whole
/// microseconds, capped at `i64::MAX`.
pub open spec fn spec_timespan_micros(secs: u64, nanos: u32) -> int {
    let micros = secs * 1_000_000 + nanos / 1000;
    if micros > i64::MAX {
        i64::MAX as int
    } else {
        micros
    }
}

/// The time span is a whole number of microseconds between zero and
/// `i64::MAX`: exactly the duration's whole microseconds when they fit,
/// and it never shrinks as the duration grows.
pub proof fn lemma_timespan_micros(secs: u64, nanos: u32, more_secs: u64)
    requires
        nanos < 1_000_000_000,
        secs <= more_secs,
    ensures
        0 <= spec_timespan_micros(secs, nanos) <= i64::MAX,
        secs <= 9_000_000_000_000 ==> spec_timespan_micros(secs, nanos) == secs * 1_000_000 + nanos / 1000,
        spec_timespan_micros(secs, nanos) <= spec_timespan_micros(more_secs, nanos),
        spec_timespan_micros(0, nanos) == nanos / 1000,
{
    assert(secs * 1_000_000 <= more_secs * 1_000_000) by (nonlinear_arith)
        requires
            secs <= more_secs,
    ;
    assert(secs * 1_000_000 >= 0) by (nonlinear_arith);
    if secs <= 9_000_000_000_000 {
        assert(secs * 1_000_000 <= 9_000_000_000_000 * 1_000_000) by (nonlinear_arith)
            requires
                secs <= 9_000_000_000_000,
        ;
    }
}

/// The engine time span for a duration of `secs` seconds and `nanos`
/// nanoseconds: whole microseconds, capped at `i64::MAX`.
pub fn timespan_micros(secs: u64, nanos: u32) -> (r: i64)
    requires
        nanos < 1_000_000_000,
    ensures
        r == spec_timespan_micros(secs, nanos),
{
    let micros: u128 = (secs as u128) * 1_000_000u128 + ((nanos / 1000) as u128);
    if micros > (i64::MAX as u128) {
        i64::MAX
    } else {
        micros as i64
    }
}

/// Clear the given types within a duration of `secs` seconds and `nanos`
/// nanoseconds back from now.
pub fn clear_request(types: WebsiteDataType, secs: u64, nanos: u32) -> (r: ClearRequest)
    requires
        nanos < 1_000_000_000,
    ensures
        r.types == types,
        r.timespan == spec_timespan_micros(secs, nanos),
{
    ClearRequest { types, timespan: timespan_micros(secs, nanos) }
}

/// Clear every data type for all time.
pub fn clear_all_request() -> (r: ClearRequest)
    ensures
        r.types == uniform_selection(true),
        r.timespan == -1,
{
    ClearRequest { types: WebsiteDataType::all(), timespan: -1 }
}

/// Clear cookies over the longest expressible span.
pub fn clear_cookies_request() -> (r: ClearRequest)
    ensures
        r.types == (WebsiteDataType { cookies: true, ..uniform_selection(false) }),
        r.timespan == i64::MAX,
{
    clear_request(WebsiteDataType::cookies(), u64::MAX, 0)
}

/// Clear caches over the longest expressible span.
pub fn clear_caches_request() -> (r: ClearRequest)
    ensures
        r.types == (WebsiteDataType {
            memory_cache: true,
            disk_cache: true,
            offline_application_cache: true,
            dom_cache: true,
            ..uniform_selection(false)
        }),
        r.timespan == i64::MAX,
{
    clear_request(WebsiteDataType::caches(), u64::MAX, 0)
}

/// The result of a clear operation from the engine's reply: `None` when no
/// reply came (the operation was cancelled), otherwise the reply itself,
/// an engine message becoming an engine error.
pub fn clear_result(reply: Option<Result<(), String>>) -> (r: Result<(), WebKitError>)
    ensures
        reply == Some(Ok::<(), String>(())) ==> r is Ok,
        reply matches Some(Err(m)) ==> (r matches Err(WebKitError::Engine(e)) && e@ == m@),
        reply is None ==> (r matches Err(WebKitError::Engine(e)) && e@
            == "website data clear was cancelled"@),
{
    match reply {
        Some(Ok(())) => Ok(()),
        Some(Err(e)) => Err(WebKitError::Engine(e)),
        None => Err(WebKitError::Engine(String::from_str("website data clear was cancelled"))),
    }
}

} // verus!
