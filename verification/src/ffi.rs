//! The decisions behind the C interface: how a configuration received as
//! JSON becomes a web view configuration, and how results and policy
//! actions are encoded as C integers.
//!
//! Parsing the JSON text and converting C strings happen in the
//! application layer; the values it parsed arrive here as an
//! [`FfiConfig`].

use vstd::prelude::*;

use crate::config::{DataStoreKind, DataStoreKindView, WebKitConfiguration, WebKitConfigurationView, scripts_view};
use crate::error::WebKitError;
use crate::navigation::PolicyAction;
use crate::script::WebScript;
use crate::settings::{WebSettings, WebSettingsView, opt_str_view};

verus! {

/// The data store part of a C configuration. Every field defaults to the
/// empty string.
#[derive(Debug, Clone)]
pub struct FfiDataStore {
    pub kind: String,
    pub data_directory: String,
    pub cache_directory: String,
}

/// A configuration received through the C interface. Missing fields take
/// their defaults: no start URL, no settings (the recommended ones are
/// used), no scripts or handlers, no private browsing, no data store.
pub struct FfiConfig {
    pub start_url: Option<String>,
    pub settings: Option<WebSettings>,
    pub user_scripts: Vec<WebScript>,
    pub message_handlers: Vec<String>,
    pub private_browsing: bool,
    pub data_store: Option<FfiDataStore>,
}

/// The data store a C configuration selects.
///
/// A data store entry with an empty kind is ignored. `"ephemeral"` and
/// `"private"` select the ephemeral store, `"custom"` the custom
/// directories of the entry, and any other kind the default store.
/// `private_browsing` overrides all of this with the ephemeral store.
pub open spec fn spec_ffi_data_store(
    data_store: Option<FfiDataStore>,
    private_browsing: bool,
) -> DataStoreKindView {
    if private_browsing {
        DataStoreKindView::Ephemeral
    } else {
        match data_store {
            None => DataStoreKindView::Default,
            Some(ds) => if ds.kind@.len() == 0 {
                DataStoreKindView::Default
            } else if ds.kind@ == "ephemeral"@ || ds.kind@ == "private"@ {
                DataStoreKindView::Ephemeral
            } else if ds.kind@ == "custom"@ {
                DataStoreKindView::Custom {
                    data_directory: ds.data_directory@,
                    cache_directory: ds.cache_directory@,
                }
            } else {
                DataStoreKindView::Default
            },
        }
    }
}

/// Private browsing always selects the ephemeral store, whatever data
/// store entry is given; without private browsing a custom store is
/// selected only for a `custom` entry and then keeps the entry's
/// directories, and without an entry the default store is used.
pub proof fn lemma_ffi_data_store_choice(data_store: Option<FfiDataStore>, ds: FfiDataStore)
    ensures
        spec_ffi_data_store(data_store, true) == DataStoreKindView::Ephemeral,
        spec_ffi_data_store(None, false) == DataStoreKindView::Default,
        spec_ffi_data_store(Some(ds), false) is Custom ==> ds.kind@ == "custom"@,
        ds.kind@ == "custom"@ ==> spec_ffi_data_store(Some(ds), false) == (DataStoreKindView::Custom {
            data_directory: ds.data_directory@,
            cache_directory: ds.cache_directory@,
        }),
        ds.kind@.len() == 0 ==> spec_ffi_data_store(Some(ds), false) == DataStoreKindView::Default,
{
    reveal_strlit("custom");
    reveal_strlit("ephemeral");
    reveal_strlit("private");
    if ds.kind@ == "custom"@ {
        assert(ds.kind@.len() != "ephemeral"@.len());
        assert(ds.kind@[0] != "private"@[0]);
    }
}

/// The data store selected by a C configuration's data store entry and
/// private browsing flag.
pub fn ffi_data_store(data_store: Option<FfiDataStore>, private_browsing: bool) -> (r:
    DataStoreKind)
    ensures
        r@ == spec_ffi_data_store(data_store, private_browsing),
{
    let mut kind = DataStoreKind::Default;
    if let Some(ds) = data_store {
        if ds.kind.as_str().unicode_len() != 0 {
            let k = ds.kind.as_str();
            kind = if crate::lang::str_equals(k, "ephemeral") || crate::lang::str_equals(
                k,
                "private",
            ) {
                DataStoreKind::Ephemeral
            } else if crate::lang::str_equals(k, "custom") {
                DataStoreKind::Custom {
                    data_directory: ds.data_directory,
                    cache_directory: ds.cache_directory,
                }
            } else {
                DataStoreKind::Default
            };
        }
    }
    if private_browsing {
        kind = DataStoreKind::Ephemeral;
    }
    kind
}

/// The web view configuration for a C configuration, with one message
/// handler per name given as `handlers`.
pub fn configuration_from_ffi<H>(config: FfiConfig, handlers: Vec<H>) -> (r:
    WebKitConfiguration<H>)
    ensures
        r@ == (WebKitConfigurationView {
            start_url: opt_str_view(config.start_url),
            settings: match config.settings {
                Some(s) => s@,
                None => WebSettingsView::recommended(),
            },
            user_scripts: scripts_view(config.user_scripts@),
            message_handlers: handlers@,
            data_store: spec_ffi_data_store(config.data_store, config.private_browsing),
        }),
{
    let settings = match config.settings {
        Some(s) => s,
        None => WebSettings::new(),
    };
    WebKitConfiguration {
        start_url: config.start_url,
        settings,
        user_scripts: config.user_scripts,
        message_handlers: handlers,
        data_store: ffi_data_store(config.data_store, config.private_browsing),
    }
}

/// The C code of a policy action: 0 navigation, 1 new window, 2 response.
pub fn policy_action_code(action: PolicyAction) -> (r: i32)
    ensures
        r == match action {
            PolicyAction::Navigation => 0i32,
            PolicyAction::NewWindow => 1i32,
            PolicyAction::Response => 2i32,
        },
{
    match action {
        PolicyAction::Navigation => 0,
        PolicyAction::NewWindow => 1,
        PolicyAction::Response => 2,
    }
}

/// Whether a navigation proceeds given the C caller's answer: without a
/// policy callback everything is allowed; with one, a nonzero answer
/// allows.
pub fn policy_allows(answer: Option<i32>) -> (r: bool)
    ensures
        r == match answer {
            None => true,
            Some(code) => code != 0,
        },
{
    match answer {
        None => true,
        Some(code) => code != 0,
    }
}

/// The C status of a result: 0 on success, -1 on error.
pub fn status_code(result: &Result<(), WebKitError>) -> (r: i32)
    ensures
        r == (if result is Ok {
            0i32
        } else {
            -1i32
        }),
{
    match result {
        Ok(()) => 0,
        Err(_) => -1,
    }
}

/// The C value of a boolean: 1 for true, 0 for false.
pub fn c_bool(b: bool) -> (r: i32)
    ensures
        r == (if b {
            1i32
        } else {
            0i32
        }),
{
    if b {
        1
    } else {
        0
    }
}

} // verus!
