//! Download handling, the equivalent of `WKDownloadDelegate` in Apple
//! WebKit. Every download started by a web view is reported to the view's
//! download delegate, which decides where the file is saved; the default
//! delegate chooses no destination, which cancels every download.

use vstd::prelude::*;

verus! {

/// Default download delegate: cancels every download by not choosing a
/// destination.
#[derive(Debug, Default)]
pub struct DefaultDownloadDelegate;

} // verus!
