//! Adaptive wide-area streaming runtime.
//!
//! A client paces a degradable source, frames it over a reliable byte
//! stream, and steers its data rate with a four-state adaptation machine
//! driven by a local queue monitor and remote congestion reports. Rates
//! are in kbps, latencies in milliseconds, and tunable fractions in
//! thousandths.

use vstd::prelude::*;

pub mod adaptation;
pub mod adaptation_controller;
pub mod analytics;
pub mod bw_monitor;
pub mod bytesbuf;
pub mod client;
pub mod clock;
pub mod codec;
pub mod controller;
pub mod datum;
pub mod errors;
pub mod evaluation;
pub mod helper;
pub mod loader;
pub mod profile;
pub mod server;
pub mod setting;
pub mod socket;
pub mod source;
pub mod utils;
pub mod video;
pub mod wire;

pub use codec::AsCodec;
pub use datum::{AsDatum, AsDatumType, ReceiverReport};
pub use profile::SimpleProfile;
pub use setting::Setting;
pub use source::{ProbeTracker, TimerSource};

verus! {

/// Actions for adaptation, as the pacer receives them.
#[derive(Debug, Clone, Copy, PartialEq, Eq, Structural)]
pub enum AdaptAction {
    /// Adapts to a designated bandwidth in kbps.
    ToRate(u64),
    /// Decreases the degradation (moves one level up).
    DecreaseDegradation,
    /// Starts probing with a target bandwidth in kbps.
    StartProbe(u64),
    /// Increases the probe pace.
    IncreaseProbePace,
    /// Stops the probing.
    StopProbe,
}

/// The core trait for a source that reacts by changing levels. Each
/// implementor says, as spec functions, what its operations do; the
/// executable methods are held to exactly those.
pub trait Adapt: Sized {
    /// The invariant the source maintains across its operations.
    spec fn adapt_inv(&self) -> bool;

    /// The current level.
    spec fn spec_level(&self) -> usize;

    /// The source after adapting to a bandwidth constraint.
    spec fn spec_adapted(&self, bandwidth: u64) -> Self;

    /// The source after moving one level up.
    spec fn spec_advanced(&self) -> Self;

    /// Adapts to a bandwidth constraint in kbps. The level never rises.
    fn adapt(&mut self, bandwidth: u64)
        requires
            old(self).adapt_inv(),
        ensures
            final(self).adapt_inv(),
            *final(self) == old(self).spec_adapted(bandwidth),
            final(self).spec_level() <= old(self).spec_level(),
    ;

    /// Decreases the current degradation level: one level up, where a
    /// higher one exists. The level never falls.
    fn dec_degradation(&mut self)
        requires
            old(self).adapt_inv(),
        ensures
            final(self).adapt_inv(),
            *final(self) == old(self).spec_advanced(),
            final(self).spec_level() >= old(self).spec_level(),
    ;

    /// The tick period in milliseconds.
    fn period_in_ms(&self) -> (r: u64)
        ensures
            r >= 1,
    ;

    /// Report the current level.
    fn current_level(&self) -> (r: usize)
        ensures
            r == self.spec_level(),
    ;

    /// Return a simple profile.
    fn simple_profile(&self) -> SimpleProfile;
}

/// For experiment: a source that synthesizes datum sizes. The implementor
/// says, as spec functions, which pair the next call returns and what
/// taking it does to the source.
pub trait Experiment: Sized {
    /// The invariant the source maintains across its operations.
    spec fn exp_inv(&self) -> bool;

    /// The size-and-index pair the next call returns.
    spec fn spec_next_datum(&self) -> (usize, usize);

    /// The source after one datum is taken.
    spec fn spec_datum_taken(&self) -> Self;

    /// The size of the next datum and its index. The size always fits
    /// one datum's wire form.
    fn next_datum(&mut self) -> (r: (usize, usize))
        requires
            old(self).exp_inv(),
        ensures
            final(self).exp_inv(),
            r == old(self).spec_next_datum(),
            *final(self) == old(self).spec_datum_taken(),
            r.0 + 33 <= u64::MAX,
    ;
}

} // verus!
