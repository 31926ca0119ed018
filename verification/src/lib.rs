//! # TontooWebKit
//!
//! Web content framework for TontooOS, following Apple's WebKit design: a
//! web view configured by a `WebKitConfiguration` (start URL, engine
//! settings, user scripts, message handlers and website data store), plus
//! navigation, view and download delegates.
//!
//! This crate holds the framework's decision logic with proved
//! contracts: the settings model and how it maps onto the engine, the URL
//! scheme allowlist, the configuration builders, the website-data
//! selection and its engine bit mask, cookie values, localisation lookup,
//! the geolocation provider's state machine and the mapping of engine
//! events into delegate callbacks. The rendering engine itself is driven by
//! the application layer, which hands plain values to these functions.

use vstd::prelude::*;

pub mod config;
pub mod cookie;
pub mod data_store;
pub mod delegate;
pub mod download;
pub mod error;
pub mod ffi;
pub mod geolocation;
pub mod lang;
pub mod navigation;
pub mod script;
pub mod settings;
pub mod web_view;

pub use config::{DataStoreKind, WebKitConfiguration};
pub use cookie::{Cookie, CookieAcceptPolicy, CookieStorage};
pub use data_store::{WebsiteData, WebsiteDataType};
pub use delegate::{DefaultWebViewDelegate, PermissionDecision, PermissionKind, ScriptDialogKind};
pub use download::DefaultDownloadDelegate;
pub use error::WebKitError;
pub use navigation::{
    DefaultWebNavigationDelegate, NavigationAction, NavigationEvent, PolicyAction,
    WebNavigationDelegate,
};
pub use script::{ScriptFrameInjection, ScriptInjectionTime, WebScript};
pub use settings::{AutoPlay, CacheModel, WebSettings, WebSettingsBuilder};

verus! {

/// Version of the TontooWebKit framework (major, minor, patch).
pub const WEBKIT_VERSION: (u32, u32, u32) = (26, 1, 0);

} // verus!
