//! User scripts injected into loaded pages.
//!
//! A [`WebScript`] is injected into every page (or only the top frame) at
//! document start or document end, optionally limited by URL allow and
//! block lists.

use vstd::prelude::*;

verus! {

/// When a user script is injected into the document.
#[derive(Debug, Clone, Copy, PartialEq, Eq, Structural)]
pub enum ScriptInjectionTime {
    /// Injected before the document is parsed.
    AtDocumentStart,
    /// Injected after the document is parsed.
    AtDocumentEnd,
}

impl Default for ScriptInjectionTime {
    fn default() -> (r: Self)
        ensures
            r == ScriptInjectionTime::AtDocumentEnd,
    {
        ScriptInjectionTime::AtDocumentEnd
    }
}

/// Which frames receive the user script.
#[derive(Debug, Clone, Copy, PartialEq, Eq, Structural)]
pub enum ScriptFrameInjection {
    /// Inject into the top frame only.
    TopFrame,
    /// Inject into every frame.
    AllFrames,
}

impl Default for ScriptFrameInjection {
    fn default() -> (r: Self)
        ensures
            r == ScriptFrameInjection::TopFrame,
    {
        ScriptFrameInjection::TopFrame
    }
}

/// The texts of a list of strings.
pub open spec fn strings_view(v: Seq<String>) -> Seq<Seq<char>> {
    v.map_values(|s: String| s@)
}

/// A user script injected into loaded pages.
#[derive(Debug, Clone)]
pub struct WebScript {
    /// The JavaScript source code.
    pub source: String,
    /// When the script runs.
    pub injection_time: ScriptInjectionTime,
    /// Which frames receive the script.
    pub frames: ScriptFrameInjection,
    /// Only inject into URLs on this allow list (empty = all URLs).
    pub allow_list: Vec<String>,
    /// Never inject into URLs on this block list.
    pub block_list: Vec<String>,
}

/// The value of a [`WebScript`].
pub struct WebScriptView {
    pub source: Seq<char>,
    pub injection_time: ScriptInjectionTime,
    pub frames: ScriptFrameInjection,
    pub allow_list: Seq<Seq<char>>,
    pub block_list: Seq<Seq<char>>,
}

impl View for WebScript {
    type V = WebScriptView;

    open spec fn view(&self) -> WebScriptView {
        WebScriptView {
            source: self.source@,
            injection_time: self.injection_time,
            frames: self.frames,
            allow_list: strings_view(self.allow_list@),
            block_list: strings_view(self.block_list@),
        }
    }
}

impl WebScriptView {
    /// A script with this source that runs at document end in the top
    /// frame, for every URL.
    pub open spec fn with_source(source: Seq<char>) -> WebScriptView {
        WebScriptView {
            source,
            injection_time: ScriptInjectionTime::AtDocumentEnd,
            frames: ScriptFrameInjection::TopFrame,
            allow_list: Seq::empty(),
            block_list: Seq::empty(),
        }
    }
}

impl Default for WebScript {
    fn default() -> (r: Self)
        ensures
            r@ == WebScriptView::with_source(Seq::empty()),
    {
        let r = WebScript {
            source: String::new(),
            injection_time: ScriptInjectionTime::AtDocumentEnd,
            frames: ScriptFrameInjection::TopFrame,
            allow_list: Vec::new(),
            block_list: Vec::new(),
        };
        assert(r@.allow_list =~= Seq::<Seq<char>>::empty());
        assert(r@.block_list =~= Seq::<Seq<char>>::empty());
        r
    }
}

impl WebScript {
    /// Create a script that runs at document end in the top frame.
    pub fn new(source: &str) -> (r: Self)
        ensures
            r@ == WebScriptView::with_source(source@),
    {
        let r = WebScript {
            source: source.to_owned(),
            injection_time: ScriptInjectionTime::AtDocumentEnd,
            frames: ScriptFrameInjection::TopFrame,
            allow_list: Vec::new(),
            block_list: Vec::new(),
        };
        assert(r@.allow_list =~= Seq::<Seq<char>>::empty());
        assert(r@.block_list =~= Seq::<Seq<char>>::empty());
        r
    }

    /// Run the script before the document is parsed.
    pub fn at_document_start(self) -> (r: Self)
        ensures
            r@ == (WebScriptView { injection_time: ScriptInjectionTime::AtDocumentStart, ..self@ }),
    {
        let mut s = self;
        s.injection_time = ScriptInjectionTime::AtDocumentStart;
        s
    }

    /// Run the script after the document is parsed.
    pub fn at_document_end(self) -> (r: Self)
        ensures
            r@ == (WebScriptView { injection_time: ScriptInjectionTime::AtDocumentEnd, ..self@ }),
    {
        let mut s = self;
        s.injection_time = ScriptInjectionTime::AtDocumentEnd;
        s
    }

    /// Inject into every frame, not only the top one.
    pub fn in_all_frames(self) -> (r: Self)
        ensures
            r@ == (WebScriptView { frames: ScriptFrameInjection::AllFrames, ..self@ }),
    {
        let mut s = self;
        s.frames = ScriptFrameInjection::AllFrames;
        s
    }

    /// Replace the allow list.
    pub fn allow_urls(self, urls: Vec<String>) -> (r: Self)
        ensures
            r@ == (WebScriptView { allow_list: strings_view(urls@), ..self@ }),
    {
        let mut s = self;
        s.allow_list = urls;
        s
    }

    /// Replace the block list.
    pub fn block_urls(self, urls: Vec<String>) -> (r: Self)
        ensures
            r@ == (WebScriptView { block_list: strings_view(urls@), ..self@ }),
    {
        let mut s = self;
        s.block_list = urls;
        s
    }
}

} // verus!
