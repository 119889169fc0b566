//! The rate adaptation algorithm: a four-state machine folding congestion
//! signals into actions.
//!
//! States are `Startup`, `Degrade`, `Steady` and `Probe`. Each signal
//! yields exactly one action. Two counters temper the machine: `Startup`
//! tolerates a configurable number of congestion signals as transient
//! transport ramp-up, and `Steady` requires a configurable number of
//! consecutive empty-queue signals before it starts probing.

use vstd::prelude::*;

verus! {

/// Signal: what the monitors observed. Rates are in kbps, latencies in
/// milliseconds.
#[derive(Debug, Clone, Copy, PartialEq, Eq, Structural)]
pub enum Signal {
    /// The local queue is congested; carries the outgoing rate and the
    /// estimated latency.
    QueueCongest(u64, u64),
    /// The local queue is empty; try to be aggressive.
    QueueEmpty,
    /// Congestion signal from the remote peer.
    RemoteCongest(u64, u64),
    /// The prober reached its target pace.
    ProbeDone,
}

/// Action: what the machine asks the dispatcher to do.
#[derive(Debug, Clone, Copy, PartialEq, Eq, Structural)]
pub enum Action {
    /// Nothing.
    NoOp,
    /// Move one level up.
    AdvanceConfig,
    /// Adapt to the estimated outgoing rate, in kbps.
    AdjustConfig(u64),
    /// Start probing for the headroom of the next level.
    StartProbe,
    /// Raise the probing pace one step.
    IncreaseProbePace,
    /// Stop the probe.
    StopProbe,
}

/// States of the rate adaptation algorithm.
#[derive(Debug, Clone, Copy, PartialEq, Eq, Structural)]
pub enum State {
    /// Ramping up after connection establishment.
    Startup,
    /// Lowering the level under congestion.
    Degrade,
    /// Holding the level.
    Steady,
    /// Probing for headroom above the current level.
    Probe,
}

/// The adaptation machine: its state, its two counters, and the two
/// tolerance knobs.
#[derive(Debug, Clone, Copy, PartialEq, Eq, Structural)]
pub struct Adaptation {
    /// Current state.
    pub state: State,
    /// Consecutive empty-queue signals seen in `Steady`.
    pub steady_count: usize,
    /// Congestion signals tolerated so far in `Startup`.
    pub startup_congest: usize,
    /// How many consecutive empty-queue signals `Steady` requires before
    /// probing.
    pub steady_enough: usize,
    /// How many congestion signals `Startup` tolerates as transient
    /// before degrading.
    pub startup_congest_enough: usize,
}

/// The rate a congestion signal carries, when it is one.
pub open spec fn spec_congest_rate(signal: Signal) -> Option<u64> {
    match signal {
        Signal::QueueCongest(rate, _) => Some(rate),
        Signal::RemoteCongest(rate, _) => Some(rate),
        _ => None,
    }
}

/// The machine handles every (state, signal) pair except a probe
/// completion outside `Probe`; those are programming errors and abort the
/// control plane.
pub open spec fn spec_handles(state: State, signal: Signal) -> bool {
    signal is ProbeDone ==> state is Probe
}

/// The transition table: from a machine, a signal, and whether the source
/// is at its maximum level, the next machine and the action produced.
pub open spec fn spec_transit(s: Adaptation, signal: Signal, max_config: bool) -> (
    Adaptation,
    Action,
)
    recommends
        spec_handles(s.state, signal),
{
    match s.state {
        State::Startup => {
            if signal is QueueEmpty {
                if max_config {
                    // Queue is empty and the level is at max: hold steady.
                    ((Adaptation { state: State::Steady, ..s }), Action::NoOp)
                } else {
                    // Keep ramping up one level at a time.
                    (s, Action::AdvanceConfig)
                }
            } else if spec_congest_rate(signal) is Some {
                let rate = spec_congest_rate(signal)->Some_0;
                if s.startup_congest >= s.startup_congest_enough {
                    // Tolerance spent: degrade to the observed rate.
                    (
                        (Adaptation { state: State::Degrade, startup_congest: 0, ..s }),
                        Action::AdjustConfig(rate),
                    )
                } else {
                    // Tolerate transient congestion while the transport
                    // ramps up.
                    ((Adaptation { startup_congest: (s.startup_congest + 1) as usize, ..s }),
                    Action::NoOp)
                }
            } else {
                (s, Action::NoOp)
            }
        },
        State::Degrade => {
            if spec_congest_rate(signal) is Some {
                let rate = spec_congest_rate(signal)->Some_0;
                (s, Action::AdjustConfig(rate))
            } else {
                // Queue drained: congestion is resolved.
                ((Adaptation { state: State::Steady, ..s }), Action::NoOp)
            }
        },
        State::Steady => {
            if spec_congest_rate(signal) is Some {
                let rate = spec_congest_rate(signal)->Some_0;
                (
                    (Adaptation { state: State::Degrade, steady_count: 0, ..s }),
                    Action::AdjustConfig(rate),
                )
            } else if max_config {
                // The right state to stay in for as long as possible.
                (s, Action::NoOp)
            } else if s.steady_count + 1 >= s.steady_enough {
                // Steady long enough: probe for headroom.
                ((Adaptation { state: State::Probe, steady_count: 0, ..s }), Action::StartProbe)
            } else {
                ((Adaptation { steady_count: (s.steady_count + 1) as usize, ..s }), Action::NoOp)
            }
        },
        State::Probe => {
            if spec_congest_rate(signal) is Some {
                // Probing filled the pipe: back off.
                ((Adaptation { state: State::Steady, ..s }), Action::StopProbe)
            } else if signal is ProbeDone {
                // The probe proved the headroom: take the next level.
                ((Adaptation { state: State::Steady, ..s }), Action::AdvanceConfig)
            } else {
                (s, Action::IncreaseProbePace)
            }
        },
    }
}

impl Default for Adaptation {
    /// A fresh machine: `Startup`, cleared counters, and a tolerance of
    /// three for both the startup congestion and the steady empty-queue
    /// requirement.
    fn default() -> (r: Adaptation)
        ensures
            r.state is Startup,
            r.steady_count == 0,
            r.startup_congest == 0,
            r.steady_enough == 3,
            r.startup_congest_enough == 3,
    {
        Adaptation {
            state: State::Startup,
            steady_count: 0,
            startup_congest: 0,
            steady_enough: 3,
            startup_congest_enough: 3,
        }
    }
}

impl Adaptation {
    /// Folds one signal into the machine and returns the action to apply.
    ///
    /// The result is exactly the transition table: congestion degrades
    /// (once `Startup`'s tolerance is spent), an empty queue advances in
    /// `Startup`, holds in `Degrade`, counts toward probing in `Steady`
    /// and paces the probe in `Probe`; a finished probe advances the
    /// level. A probe completion outside `Probe` is a programming error
    /// and is excluded.
    pub fn transit(&mut self, signal: Signal, max_config: bool) -> (action: Action)
        requires
            spec_handles(old(self).state, signal),
        ensures
            (*final(self), action) == spec_transit(*old(self), signal, max_config),
            final(self).steady_enough == old(self).steady_enough,
            final(self).startup_congest_enough == old(self).startup_congest_enough,
            action is StartProbe ==> !max_config && final(self).state is Probe,
            action is AdjustConfig ==> final(self).state is Degrade,
    {
        match self.state {
            State::Startup => {
                match signal {
                    Signal::QueueEmpty => {
                        if max_config {
                            self.state = State::Steady;
                            Action::NoOp
                        } else {
                            Action::AdvanceConfig
                        }
                    },
                    Signal::QueueCongest(rate, _) | Signal::RemoteCongest(rate, _) => {
                        if self.startup_congest >= self.startup_congest_enough {
                            self.startup_congest = 0;
                            self.state = State::Degrade;
                            Action::AdjustConfig(rate)
                        } else {
                            self.startup_congest = self.startup_congest + 1;
                            Action::NoOp
                        }
                    },
                    Signal::ProbeDone => Action::NoOp,
                }
            },
            State::Degrade => {
                match signal {
                    Signal::QueueCongest(rate, _) | Signal::RemoteCongest(rate, _) => {
                        Action::AdjustConfig(rate)
                    },
                    _ => {
                        self.state = State::Steady;
                        Action::NoOp
                    },
                }
            },
            State::Steady => {
                match signal {
                    Signal::QueueCongest(rate, _) | Signal::RemoteCongest(rate, _) => {
                        self.steady_count = 0;
                        self.state = State::Degrade;
                        Action::AdjustConfig(rate)
                    },
                    _ => {
                        let fire = self.steady_enough == 0 || self.steady_count
                            >= self.steady_enough - 1;
                        if max_config {
                            Action::NoOp
                        } else if fire {
                            self.steady_count = 0;
                            self.state = State::Probe;
                            Action::StartProbe
                        } else {
                            self.steady_count = self.steady_count + 1;
                            Action::NoOp
                        }
                    },
                }
            },
            State::Probe => {
                match signal {
                    Signal::QueueCongest(_, _) | Signal::RemoteCongest(_, _) => {
                        self.state = State::Steady;
                        Action::StopProbe
                    },
                    Signal::ProbeDone => {
                        self.state = State::Steady;
                        Action::AdvanceConfig
                    },
                    Signal::QueueEmpty => Action::IncreaseProbePace,
                }
            },
        }
    }
}

/// Two consecutive empty-queue signals in `Steady`, once the steady
/// counter is satisfied, produce `StartProbe` exactly once: the first
/// starts the probe; the machine is then probing, so the second only
/// raises the probe pace.
pub proof fn lemma_steady_double_queue_empty(s: Adaptation, max_config: bool)
    requires
        s.state is Steady,
        !max_config,
        s.steady_count + 1 >= s.steady_enough,
    ensures
        ({
            let (s1, a1) = spec_transit(s, Signal::QueueEmpty, max_config);
            let (s2, a2) = spec_transit(s1, Signal::QueueEmpty, max_config);
            a1 == Action::StartProbe && a2 == Action::IncreaseProbePace && a2
                != Action::StartProbe
        }),
{
}

} // verus!
