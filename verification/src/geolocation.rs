//! The geolocation provider's state machine.
//!
//! Positions come from CoreLocation instead of the system Geoclue service.
//! The provider is attached to the engine once; an attach that finds no
//! web context or geolocation manager fails with the engine error and the
//! next attach tries again. The engine then starts and stops the provider
//! as pages watch the position. While it is active a single
//! worker fetches positions, every 2 seconds with high accuracy and every
//! 30 seconds otherwise, and positions or failures are only delivered to
//! the engine while the provider is active. Attaching never grants a page
//! anything by itself: pages still need the permission.

use vstd::prelude::*;
use vstd::string::*;

use crate::error::WebKitError;

verus! {

/// Seconds between updates with high accuracy.
pub const INTERVAL_HIGH_ACCURACY: u64 = 2;

/// Seconds between updates otherwise.
pub const INTERVAL_NORMAL: u64 = 30;

/// Steps of a tenth of a second per second of waiting, so that a stop is
/// noticed quickly.
pub const STEPS_PER_SECOND: u64 = 10;

/// The provider's state.
pub struct GeolocationProvider {
    attached: bool,
    active: bool,
    high_accuracy: bool,
}

/// The value of a [`GeolocationProvider`].
pub struct ProviderState {
    /// Whether the provider is attached to the engine, or an attach is
    /// under way.
    pub attached: bool,
    /// Whether the engine has started the provider and not stopped it.
    pub active: bool,
    /// Whether the engine asks for high accuracy.
    pub high_accuracy: bool,
}

impl View for GeolocationProvider {
    type V = ProviderState;

    closed spec fn view(&self) -> ProviderState {
        ProviderState {
            attached: self.attached,
            active: self.active,
            high_accuracy: self.high_accuracy,
        }
    }
}

/// The state when an attach begins, and whether this call must hook the
/// provider into the engine: only when it is not attached and no other
/// attach is under way.
pub open spec fn spec_begin_attach(s: ProviderState) -> (ProviderState, bool) {
    (ProviderState { attached: true, ..s }, !s.attached)
}

/// The state once the engine hookup of an attach has ended: attached only
/// when the hookup succeeded, so that a failed attach is tried again.
pub open spec fn spec_finish_attach(s: ProviderState, hooked: bool) -> ProviderState {
    ProviderState { attached: hooked, ..s }
}

/// The outcome of the engine lookups of an attach: the engine error when
/// the engine has no default web context, or when that context has no
/// geolocation manager.
pub open spec fn spec_attach_outcome(has_context: bool, has_manager: bool) -> Result<(), Seq<char>> {
    if !has_context {
        Err("no default web context"@)
    } else if !has_manager {
        Err("engine has no geolocation manager"@)
    } else {
        Ok(())
    }
}

/// Whether a result is the outcome `o`, with an error as
/// [`WebKitError::Engine`] carrying its text.
pub open spec fn is_attach_outcome(r: Result<(), WebKitError>, o: Result<(), Seq<char>>) -> bool {
    match (r, o) {
        (Ok(()), Ok(())) => true,
        (Err(WebKitError::Engine(m)), Err(t)) => m@ == t,
        _ => false,
    }
}

/// The state after the engine starts the provider, and whether a worker
/// must be started: only when none is running.
pub open spec fn spec_start(s: ProviderState, high_accuracy: bool) -> (ProviderState, bool) {
    (ProviderState { active: true, high_accuracy, ..s }, !s.active)
}

/// The state after the engine stops the provider.
pub open spec fn spec_stop(s: ProviderState) -> ProviderState {
    ProviderState { active: false, ..s }
}

/// The seconds between updates in a state.
pub open spec fn spec_interval(s: ProviderState) -> u64 {
    if s.high_accuracy {
        INTERVAL_HIGH_ACCURACY
    } else {
        INTERVAL_NORMAL
    }
}

impl GeolocationProvider {
    /// A provider that is not attached, not active, without high accuracy.
    pub fn new() -> (r: Self)
        ensures
            r@ == (ProviderState { attached: false, active: false, high_accuracy: false }),
    {
        GeolocationProvider { attached: false, active: false, high_accuracy: false }
    }

    /// Begin an attach. Returns `true` when this call must hook the
    /// provider into the engine and then report the result with
    /// [`finish_attach`](Self::finish_attach); `false` when the provider
    /// is already attached or another attach is under way, in which case
    /// the call has no effect.
    pub fn begin_attach(&mut self) -> (try_now: bool)
        ensures
            (final(self)@, try_now) == spec_begin_attach(old(self)@),
    {
        let try_now = !self.attached;
        self.attached = true;
        try_now
    }

    /// End an attach begun with [`begin_attach`](Self::begin_attach),
    /// given whether the engine has a default web context and whether
    /// that context has a geolocation manager. The provider stays attached
    /// only when both were found; otherwise the engine error is returned
    /// and the next attach tries again.
    pub fn finish_attach(&mut self, has_context: bool, has_manager: bool) -> (r: Result<(), WebKitError>)
        ensures
            final(self)@ == spec_finish_attach(old(self)@, has_context && has_manager),
            is_attach_outcome(r, spec_attach_outcome(has_context, has_manager)),
    {
        self.attached = has_context && has_manager;
        if !has_context {
            Err(WebKitError::Engine(String::from_str("no default web context")))
        } else if !has_manager {
            Err(WebKitError::Engine(String::from_str("engine has no geolocation manager")))
        } else {
            Ok(())
        }
    }

    /// The engine changed its accuracy request.
    pub fn set_high_accuracy(&mut self, enabled: bool)
        ensures
            final(self)@ == (ProviderState { high_accuracy: enabled, ..old(self)@ }),
    {
        self.high_accuracy = enabled;
    }

    /// The engine started the provider. Returns `true` when a worker must
    /// be started, which is only when none is running.
    pub fn start(&mut self, high_accuracy: bool) -> (spawn_worker: bool)
        ensures
            (final(self)@, spawn_worker) == spec_start(old(self)@, high_accuracy),
    {
        self.high_accuracy = high_accuracy;
        let spawn_worker = !self.active;
        self.active = true;
        spawn_worker
    }

    /// The engine stopped the provider; the worker ends and no further
    /// report reaches the engine.
    pub fn stop(&mut self)
        ensures
            final(self)@ == spec_stop(old(self)@),
    {
        self.active = false;
    }

    /// Whether the worker keeps running and reports reach the engine.
    pub fn is_active(&self) -> (r: bool)
        ensures
            r == self@.active,
    {
        self.active
    }

    /// The seconds between two position updates.
    pub fn update_interval(&self) -> (r: u64)
        ensures
            r == spec_interval(self@),
    {
        if self.high_accuracy {
            INTERVAL_HIGH_ACCURACY
        } else {
            INTERVAL_NORMAL
        }
    }

    /// The number of short waits between two updates.
    pub fn wait_steps(&self) -> (r: u64)
        ensures
            r == spec_interval(self@) * STEPS_PER_SECOND,
    {
        self.update_interval() * STEPS_PER_SECOND
    }
}

/// Only one worker runs at a time: two starts with no stop between them
/// start at most one worker, and after a stop the next start starts one.
pub proof fn lemma_single_worker(s: ProviderState, first: bool, second: bool)
    ensures
        !(spec_start(s, first).1 && spec_start(spec_start(s, first).0, second).1),
        spec_start(spec_stop(s), first).1,
{
}

/// Every start takes the engine's current accuracy request, whether or
/// not the provider was already active: after a start asking for high
/// accuracy positions come every 2 seconds, otherwise every 30 seconds.
/// A start leaves the provider active and its attachment as it was, and a
/// stop keeps the accuracy request.
pub proof fn lemma_start_takes_latest_accuracy(s: ProviderState, high_accuracy: bool)
    ensures
        spec_start(s, high_accuracy).0.high_accuracy == high_accuracy,
        spec_start(s, high_accuracy).0.active,
        spec_start(s, high_accuracy).0.attached == s.attached,
        spec_interval(spec_start(s, high_accuracy).0) == (if high_accuracy { 2u64 } else { 30u64 }),
        spec_interval(spec_start(spec_start(s, !high_accuracy).0, high_accuracy).0) == (if high_accuracy {
            2u64
        } else {
            30u64
        }),
        spec_stop(s).high_accuracy == s.high_accuracy,
        !spec_stop(s).active,
{
}

/// Attaching is idempotent: after an attach whose hookup succeeded, a
/// further attach does not hook again and changes nothing; while an attach
/// is under way, a concurrent one does not hook either.
pub proof fn lemma_attach_idempotent(s: ProviderState)
    ensures
        !spec_begin_attach(spec_finish_attach(spec_begin_attach(s).0, true)).1,
        spec_begin_attach(spec_finish_attach(spec_begin_attach(s).0, true)).0
            == spec_finish_attach(spec_begin_attach(s).0, true),
        !spec_begin_attach(spec_begin_attach(s).0).1,
{
}

/// The engine lookups of an attach succeed exactly when the engine has a
/// default web context and that context has a geolocation manager.
pub proof fn lemma_attach_outcome_ok(has_context: bool, has_manager: bool)
    ensures
        spec_attach_outcome(has_context, has_manager) is Ok <==> has_context && has_manager,
{
}

/// A failed attach is tried again: after an attach whose engine lookup
/// failed, the next attach hooks the provider into the engine.
pub proof fn lemma_failed_attach_retries(s: ProviderState, has_context: bool, has_manager: bool)
    requires
        spec_attach_outcome(has_context, has_manager) is Err,
    ensures
        spec_begin_attach(spec_finish_attach(spec_begin_attach(s).0, has_context && has_manager)).1,
        !(has_context && has_manager),
{
}

} // verus!
