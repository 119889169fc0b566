//! An earlier draft of the adaptation algorithm, kept for its simpler
//! signal alphabet: the queue-empty-at-max condition is a signal of its
//! own and congestion carries no rate.

use vstd::prelude::*;

verus! {

/// Signal for the controller.
#[derive(Debug, Clone, Copy, PartialEq, Eq, Structural)]
pub enum Signal {
    /// The local queue is congested.
    QueueCongest,
    /// The prober reached its target pace.
    ProbeDone,
    /// The source reached its maximum level.
    ConfigMax,
    /// The local queue is empty.
    QueueEmpty,
    /// The local queue is empty and the level is at its maximum.
    QueueEmptyAtMaxConfig,
}

/// Action the controller asks for.
#[derive(Debug, Clone, Copy, PartialEq, Eq, Structural)]
pub enum Action {
    /// Nothing.
    NoOp,
    /// Move one level up.
    AdvanceConfig,
    /// Adapt the level to the observed rate.
    AdjustConfig,
    /// Start probing for headroom.
    StartProbe,
    /// Raise the probing pace one step.
    IncreaseProbePace,
    /// Stop the probe.
    StopProbe,
}

/// States of the rate adaptation algorithm.
#[derive(Debug, Clone, Copy, PartialEq, Eq, Structural)]
pub enum State {
    /// Ramping up after connection establishment.
    Startup,
    /// Lowering the level under congestion.
    Degrade,
    /// Holding the level.
    Steady,
    /// Probing for headroom.
    Probe,
}

/// The controller: only a state.
#[derive(Debug, Clone, Copy, PartialEq, Eq, Structural)]
pub struct AdaptationController {
    /// Current state.
    pub state: State,
}

/// The pairs the controller handles; the rest are programming errors that
/// abort the control plane.
pub open spec fn spec_ctl_handles(state: State, signal: Signal) -> bool {
    &&& !(signal is ConfigMax)
    &&& (signal is ProbeDone ==> state is Probe)
    &&& (signal is QueueEmptyAtMaxConfig ==> state is Startup || state is Degrade)
}

/// The controller's transition table.
pub open spec fn spec_ctl_transit(state: State, signal: Signal) -> (State, Action)
    recommends
        spec_ctl_handles(state, signal),
{
    match (state, signal) {
        (State::Startup, Signal::QueueEmpty) => (State::Startup, Action::AdvanceConfig),
        (State::Startup, Signal::QueueEmptyAtMaxConfig) => (State::Steady, Action::NoOp),
        (State::Startup, Signal::QueueCongest) => (State::Degrade, Action::AdjustConfig),
        (State::Degrade, Signal::QueueCongest) => (State::Degrade, Action::AdjustConfig),
        (State::Degrade, Signal::QueueEmpty) => (State::Steady, Action::NoOp),
        (State::Degrade, Signal::QueueEmptyAtMaxConfig) => (State::Steady, Action::NoOp),
        (State::Steady, Signal::QueueCongest) => (State::Degrade, Action::AdjustConfig),
        (State::Steady, Signal::QueueEmpty) => (State::Probe, Action::StartProbe),
        (State::Probe, Signal::QueueCongest) => (State::Steady, Action::StopProbe),
        (State::Probe, Signal::ProbeDone) => (State::Steady, Action::AdvanceConfig),
        (State::Probe, Signal::QueueEmpty) => (State::Probe, Action::IncreaseProbePace),
        _ => (state, Action::NoOp),
    }
}

impl AdaptationController {
    /// A fresh controller starts in `Startup`.
    pub fn new() -> (r: AdaptationController)
        ensures
            r.state is Startup,
    {
        AdaptationController { state: State::Startup }
    }

    /// Folds one signal into the controller and returns the action,
    /// exactly as the transition table lists it.
    pub fn transit(&mut self, signal: Signal) -> (action: Action)
        requires
            spec_ctl_handles(old(self).state, signal),
        ensures
            (final(self).state, action) == spec_ctl_transit(old(self).state, signal),
    {
        match (self.state, signal) {
            (State::Startup, Signal::QueueEmpty) => Action::AdvanceConfig,
            (State::Startup, Signal::QueueEmptyAtMaxConfig) => {
                self.state = State::Steady;
                Action::NoOp
            },
            (State::Startup, Signal::QueueCongest) => {
                self.state = State::Degrade;
                Action::AdjustConfig
            },
            (State::Degrade, Signal::QueueCongest) => {
                self.state = State::Degrade;
                Action::AdjustConfig
            },
            (State::Degrade, Signal::QueueEmpty) | (State::Degrade, Signal::QueueEmptyAtMaxConfig)
                => {
                self.state = State::Steady;
                Action::NoOp
            },
            (State::Steady, Signal::QueueCongest) => {
                self.state = State::Degrade;
                Action::AdjustConfig
            },
            (State::Steady, Signal::QueueEmpty) => {
                self.state = State::Probe;
                Action::StartProbe
            },
            (State::Probe, Signal::QueueCongest) => {
                self.state = State::Steady;
                Action::StopProbe
            },
            (State::Probe, Signal::ProbeDone) => {
                self.state = State::Steady;
                Action::AdvanceConfig
            },
            (State::Probe, Signal::QueueEmpty) => Action::IncreaseProbePace,
            _ => Action::NoOp,
        }
    }
}

} // verus!
