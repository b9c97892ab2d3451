//! What a scenario reports, and the policy that turns it into a verdict.

use crate::catalog::{tier_of, Probe, Tier};
use vstd::prelude::*;

verus! {

/// What running one probe's scenario of one adapter gave.
#[derive(Clone, Debug, PartialEq, Eq)]
pub enum Outcome {
    /// The scenario ran to its end and all of its checks held; a
    /// quantitative scenario carries the degree that it measured.
    Completed(Option<String>),
    /// The adapter states that its library cannot do this.
    Unsupported,
    /// The adapter has no scenario for this probe.
    Missing,
    /// The scenario was interrupted (a check failed, or the library
    /// panicked), with the message that it stopped with.
    Failed(String),
}

/// The classified result of one (adapter, probe) pair.
#[derive(Clone, Debug, PartialEq, Eq)]
pub enum Verdict {
    /// The scenario completed and all of its checks held.
    Supported,
    /// The library deliberately does not offer the capability.
    ExplicitlyUnsupported,
    /// An unexpected failure happened while attempting the scenario.
    Crashed,
    /// The degree that a quantitative probe measured, verbatim.
    Quantitative(String),
}

/// The classification policy.
pub open spec fn classify_spec(p: Probe, o: Outcome) -> Verdict {
    match o {
        Outcome::Missing => Verdict::ExplicitlyUnsupported,
        Outcome::Unsupported => Verdict::ExplicitlyUnsupported,
        Outcome::Completed(degree) => {
            if tier_of(p) == Tier::Quantitative && degree is Some {
                Verdict::Quantitative(degree->Some_0)
            } else {
                Verdict::Supported
            }
        },
        Outcome::Failed(_) => Verdict::Crashed,
    }
}

/// Classifies what a scenario gave: a normal end is support (or, for a
/// quantitative probe, the degree measured), a statement of non-support or
/// a missing scenario is explicit non-support, an interruption is a crash.
pub fn classify(p: Probe, o: Outcome) -> (r: Verdict)
    ensures
        r == classify_spec(p, o),
{
    match o {
        Outcome::Missing => Verdict::ExplicitlyUnsupported,
        Outcome::Unsupported => Verdict::ExplicitlyUnsupported,
        Outcome::Completed(degree) => {
            if p.tier() == Tier::Quantitative {
                match degree {
                    Some(v) => Verdict::Quantitative(v),
                    None => Verdict::Supported,
                }
            } else {
                Verdict::Supported
            }
        },
        Outcome::Failed(_) => Verdict::Crashed,
    }
}

/// A probe that an adapter leaves out is classified exactly as one whose
/// scenario states non-support.
pub proof fn lemma_missing_is_unsupported(p: Probe)
    ensures
        classify_spec(p, Outcome::Missing) == classify_spec(p, Outcome::Unsupported),
        classify_spec(p, Outcome::Missing) == Verdict::ExplicitlyUnsupported,
{
}

/// Whether two outcomes are of the same kind, whatever they carry.
pub open spec fn same_kind(o1: Outcome, o2: Outcome) -> bool {
    match (o1, o2) {
        (Outcome::Completed(_), Outcome::Completed(_)) => true,
        (Outcome::Unsupported, Outcome::Unsupported) => true,
        (Outcome::Missing, Outcome::Missing) => true,
        (Outcome::Failed(_), Outcome::Failed(_)) => true,
        _ => false,
    }
}

/// For a core or convenience probe the verdict depends on the kind of
/// outcome alone: two runs whose scenarios end the same way, with other
/// messages, classify alike.
pub proof fn lemma_classified_by_kind(p: Probe, o1: Outcome, o2: Outcome)
    requires
        tier_of(p) != Tier::Quantitative,
        same_kind(o1, o2),
    ensures
        classify_spec(p, o1) == classify_spec(p, o2),
{
}

} // verus!
