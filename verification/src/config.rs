//! The configuration applied when a web view is created, the equivalent of
//! `WKWebViewConfiguration` in Apple WebKit.
//!
//! Script message handlers own callbacks, which this crate does not
//! inspect: the configuration holds them as values of a handler type `H`
//! chosen by the application layer.

use vstd::prelude::*;

use crate::script::{WebScript, WebScriptView};
use crate::settings::{WebSettings, WebSettingsView};

verus! {

/// Where website data lives for the web view.
#[derive(Debug, Clone)]
pub enum DataStoreKind {
    /// The shared, persistent default data store.
    Default,
    /// A private, ephemeral data store (private browsing).
    Ephemeral,
    /// A persistent data store rooted at custom directories.
    Custom { data_directory: String, cache_directory: String },
}

/// The value of a [`DataStoreKind`].
pub enum DataStoreKindView {
    Default,
    Ephemeral,
    Custom { data_directory: Seq<char>, cache_directory: Seq<char> },
}

impl View for DataStoreKind {
    type V = DataStoreKindView;

    open spec fn view(&self) -> DataStoreKindView {
        match self {
            DataStoreKind::Default => DataStoreKindView::Default,
            DataStoreKind::Ephemeral => DataStoreKindView::Ephemeral,
            DataStoreKind::Custom { data_directory, cache_directory } => DataStoreKindView::Custom {
                data_directory: data_directory@,
                cache_directory: cache_directory@,
            },
        }
    }
}

/// The data store that private browsing selects: ephemeral when enabled,
/// the shared default store otherwise.
pub open spec fn private_browsing_store(enabled: bool) -> DataStoreKindView {
    if enabled {
        DataStoreKindView::Ephemeral
    } else {
        DataStoreKindView::Default
    }
}

/// Build-time configuration for a web view.
pub struct WebKitConfiguration<H> {
    /// URL loaded when the web view is created.
    pub start_url: Option<String>,
    /// Engine settings applied to the new web view.
    pub settings: WebSettings,
    /// User scripts injected into loaded pages.
    pub user_scripts: Vec<WebScript>,
    /// JavaScript-to-application message channels.
    pub message_handlers: Vec<H>,
    /// Which data store backs this web view.
    pub data_store: DataStoreKind,
}

/// The value of a [`WebKitConfiguration`].
pub struct WebKitConfigurationView<H> {
    pub start_url: Option<Seq<char>>,
    pub settings: WebSettingsView,
    pub user_scripts: Seq<WebScriptView>,
    pub message_handlers: Seq<H>,
    pub data_store: DataStoreKindView,
}

/// The values of a list of scripts.
pub open spec fn scripts_view(v: Seq<WebScript>) -> Seq<WebScriptView> {
    v.map_values(|s: WebScript| s@)
}

impl<H> View for WebKitConfiguration<H> {
    type V = WebKitConfigurationView<H>;

    open spec fn view(&self) -> WebKitConfigurationView<H> {
        WebKitConfigurationView {
            start_url: crate::settings::opt_str_view(self.start_url),
            settings: self.settings@,
            user_scripts: scripts_view(self.user_scripts@),
            message_handlers: self.message_handlers@,
            data_store: self.data_store@,
        }
    }
}

impl<H> WebKitConfigurationView<H> {
    /// No start URL, recommended settings, no scripts or handlers, the
    /// default data store.
    pub open spec fn empty() -> WebKitConfigurationView<H> {
        WebKitConfigurationView {
            start_url: None,
            settings: WebSettingsView::recommended(),
            user_scripts: Seq::empty(),
            message_handlers: Seq::empty(),
            data_store: DataStoreKindView::Default,
        }
    }

    pub open spec fn with_start_url(self, url: Seq<char>) -> WebKitConfigurationView<H> {
        WebKitConfigurationView { start_url: Some(url), ..self }
    }

    pub open spec fn with_data_store(self, kind: DataStoreKindView) -> WebKitConfigurationView<H> {
        WebKitConfigurationView { data_store: kind, ..self }
    }

    pub open spec fn with_private_browsing(self, enabled: bool) -> WebKitConfigurationView<H> {
        WebKitConfigurationView { data_store: private_browsing_store(enabled), ..self }
    }
}

impl<H> WebKitConfiguration<H> {
    /// An empty configuration with default settings and the default data
    /// store.
    pub fn new() -> (r: Self)
        ensures
            r@ == WebKitConfigurationView::<H>::empty(),
    {
        let r = WebKitConfiguration {
            start_url: None,
            settings: WebSettings::new(),
            user_scripts: Vec::new(),
            message_handlers: Vec::new(),
            data_store: DataStoreKind::Default,
        };
        assert(r@.user_scripts =~= Seq::<WebScriptView>::empty());
        assert(r@.message_handlers =~= Seq::<H>::empty());
        r
    }

    /// Set the start URL loaded on creation.
    pub fn start_url(self, url: &str) -> (r: Self)
        ensures
            r@ == self@.with_start_url(url@),
    {
        let mut c = self;
        c.start_url = Some(url.to_owned());
        c
    }

    /// Set the start URL, overwriting any previous value.
    pub fn set_start_url(&mut self, url: &str)
        ensures
            final(self)@ == old(self)@.with_start_url(url@),
    {
        self.start_url = Some(url.to_owned());
    }

    /// Replace the engine settings.
    pub fn settings(self, settings: WebSettings) -> (r: Self)
        ensures
            r@ == (WebKitConfigurationView { settings: settings@, ..self@ }),
    {
        let mut c = self;
        c.settings = settings;
        c
    }

    /// Add a user script after the ones already present.
    pub fn user_script(self, script: WebScript) -> (r: Self)
        ensures
            r@ == (WebKitConfigurationView { user_scripts: self@.user_scripts.push(script@), ..self@ }),
    {
        let mut c = self;
        let ghost before = c.user_scripts@;
        c.user_scripts.push(script);
        assert(scripts_view(c.user_scripts@) =~= scripts_view(before).push(script@));
        c
    }

    /// Add a message handler after the ones already present.
    pub fn add_message_handler(self, handler: H) -> (r: Self)
        ensures
            r@ == (WebKitConfigurationView {
                message_handlers: self@.message_handlers.push(handler),
                ..self@
            }),
    {
        let mut c = self;
        c.message_handlers.push(handler);
        c
    }

    /// Use a specific data store kind.
    pub fn data_store(self, kind: DataStoreKind) -> (r: Self)
        ensures
            r@ == self@.with_data_store(kind@),
    {
        let mut c = self;
        c.data_store = kind;
        c
    }

    /// Enable or disable private browsing: the ephemeral data store when
    /// enabled, the default data store when disabled.
    pub fn private_browsing(self, enabled: bool) -> (r: Self)
        ensures
            r@ == self@.with_private_browsing(enabled),
    {
        let mut c = self;
        c.data_store = if enabled {
            DataStoreKind::Ephemeral
        } else {
            DataStoreKind::Default
        };
        c
    }
}

impl<H> Default for WebKitConfiguration<H> {
    fn default() -> (r: Self)
        ensures
            r@ == WebKitConfigurationView::<H>::empty(),
    {
        WebKitConfiguration::new()
    }
}

/// Private browsing is a choice of data store: switching it on or off
/// gives the same configuration as selecting the ephemeral or the default
/// data store directly, and whichever of the two is set last wins.
pub proof fn lemma_private_browsing_selects_store<H>(
    c: WebKitConfigurationView<H>,
    enabled: bool,
    kind: DataStoreKindView,
)
    ensures
        c.with_private_browsing(enabled) == c.with_data_store(private_browsing_store(enabled)),
        c.with_data_store(kind).with_private_browsing(enabled) == c.with_private_browsing(enabled),
        c.with_private_browsing(enabled).with_data_store(kind) == c.with_data_store(kind),
{
}

/// Each configuration builder changes only its own part: setting the
/// start URL keeps the settings, user scripts, message handlers and data
/// store; choosing a data store or private browsing keeps the start URL,
/// settings, scripts and handlers. Private browsing on selects the
/// ephemeral store and off the default store.
pub proof fn lemma_builders_change_only_their_part<H>(
    c: WebKitConfigurationView<H>,
    url: Seq<char>,
    kind: DataStoreKindView,
    enabled: bool,
)
    ensures
        c.with_start_url(url).start_url == Some(url),
        c.with_start_url(url).settings == c.settings,
        c.with_start_url(url).user_scripts == c.user_scripts,
        c.with_start_url(url).message_handlers == c.message_handlers,
        c.with_start_url(url).data_store == c.data_store,
        c.with_data_store(kind).data_store == kind,
        c.with_data_store(kind).start_url == c.start_url,
        c.with_data_store(kind).settings == c.settings,
        c.with_data_store(kind).user_scripts == c.user_scripts,
        c.with_data_store(kind).message_handlers == c.message_handlers,
        c.with_private_browsing(enabled).start_url == c.start_url,
        c.with_private_browsing(enabled).settings == c.settings,
        c.with_private_browsing(enabled).user_scripts == c.user_scripts,
        c.with_private_browsing(enabled).message_handlers == c.message_handlers,
        enabled ==> c.with_private_browsing(enabled).data_store == DataStoreKindView::Ephemeral,
        !enabled ==> c.with_private_browsing(enabled).data_store == DataStoreKindView::Default,
        c.with_private_browsing(enabled).with_start_url(url) == c.with_start_url(url).with_private_browsing(enabled),
{
}

} // verus!
