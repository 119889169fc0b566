//! The client's control-plane core: folds one signal into the adaptation
//! machine and dispatches the resulting action.
//!
//! Each signal yields exactly one action, applied synchronously: adjusting
//! lowers the local level to a conservative fraction of the observed rate
//! and tells the source the same; advancing raises the level; starting a
//! probe asks for slightly more than the next level's extra demand.

use vstd::prelude::*;

use crate::adaptation::{spec_congest_rate, spec_handles, spec_transit, Action, Adaptation, Signal};
use crate::profile::{spec_adjust, SimpleProfile};
use crate::AdaptAction;

verus! {

/// Folds `signal` into the adaptation machine against the control plane's
/// own copy of the profile, applies any level change locally, and returns
/// the action to send to the source, if one is due.
///
/// `k` is the conservatism factor applied to a congestion rate and
/// `probe_extra` the margin applied to a probe target, both in
/// thousandths.
pub fn core_adapt(
    signal: Signal,
    adaptation: &mut Adaptation,
    profile: &mut SimpleProfile,
    k: u64,
    probe_extra: u64,
) -> (r: Option<AdaptAction>)
    requires
        spec_handles(old(adaptation).state, signal),
        old(profile).wf(),
        (spec_congest_rate(signal) matches Some(rate) ==> k * rate <= u64::MAX),
        probe_extra * old(profile).levels@.last() <= u64::MAX,
    ensures
        final(profile).wf(),
        final(profile).levels@ == old(profile).levels@,
        ({
            let at_max = old(profile).current == old(profile).levels@.len() - 1;
            let (m2, action) = spec_transit(*old(adaptation), signal, at_max);
            &&& *final(adaptation) == m2
            &&& match action {
                Action::NoOp => r is None && *final(profile) == *old(profile),
                Action::AdjustConfig(rate) => {
                    let cons = (k * rate / 1000) as u64;
                    let (c, s) = spec_adjust(
                        old(profile).levels@,
                        old(profile).current as int,
                        old(profile).adjust_sticky_count as int,
                        cons,
                    );
                    &&& final(profile).current == c
                    &&& final(profile).adjust_sticky_count == s
                    &&& r == Some(AdaptAction::ToRate(cons))
                },
                Action::AdvanceConfig => {
                    &&& final(profile).current == if old(profile).current + 1 < old(
                        profile,
                    ).levels@.len() {
                        old(profile).current + 1
                    } else {
                        old(profile).current as int
                    }
                    &&& r == Some(AdaptAction::DecreaseDegradation)
                },
                Action::StartProbe => {
                    let delta = (old(profile).levels@[old(profile).current + 1] - old(
                        profile,
                    ).levels@[old(profile).current as int]) as u64;
                    &&& *final(profile) == *old(profile)
                    &&& r == Some(AdaptAction::StartProbe((probe_extra * delta / 1000) as u64))
                },
                Action::IncreaseProbePace => r == Some(AdaptAction::IncreaseProbePace)
                    && *final(profile) == *old(profile),
                Action::StopProbe => r == Some(AdaptAction::StopProbe)
                    && *final(profile) == *old(profile),
            }
        }),
{
    let at_max = profile.is_max();
    let action = adaptation.transit(signal, at_max);
    match action {
        Action::NoOp => None,
        Action::AdjustConfig(rate) => {
            proof {
                assert(k * rate <= u64::MAX);
            }
            let conservative = k * rate / 1000;
            let _level = profile.adjust_level(conservative);
            Some(AdaptAction::ToRate(conservative))
        },
        Action::AdvanceConfig => {
            let _level = profile.advance_level();
            Some(AdaptAction::DecreaseDegradation)
        },
        Action::StartProbe => {
            let delta_opt = profile.next_rate_delta();
            let delta = match delta_opt {
                Some(d) => d,
                None => 0,
            };
            proof {
                assert(delta_opt is Some);
                assert(delta <= profile.levels@.last()) by {
                    assert(profile.levels@[profile.current + 1] <= profile.levels@[profile.levels@.len()
                        - 1]);
                }
                assert(probe_extra * delta <= probe_extra * profile.levels@.last())
                    by (nonlinear_arith)
                    requires
                        delta <= profile.levels@.last(),
                        probe_extra >= 0,
                ;
            }
            let target = probe_extra * delta / 1000;
            Some(AdaptAction::StartProbe(target))
        },
        Action::IncreaseProbePace => Some(AdaptAction::IncreaseProbePace),
        Action::StopProbe => Some(AdaptAction::StopProbe),
    }
}

} // verus!
