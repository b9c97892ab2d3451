//! The contract that each library's adapter meets to take part in a run.

use crate::catalog::Probe;
use crate::verdict::Outcome;
use crate::version::{deps_view, lookup, version_outcome_spec, version_probe};
use vstd::prelude::*;

verus! {

/// An adapter: one scenario per probe of the catalog, written with one
/// mocking library. A scenario that the adapter leaves out reports
/// `Outcome::Missing`; one that the library cannot do should report
/// `Outcome::Unsupported`. The version probe is answered from the build
/// metadata, under the adapter's package name.
pub trait TestSuite {
    /// The name that heads the adapter's column.
    fn name() -> String;

    /// The package name under which the build metadata lists the library.
    fn package() -> String;

    /// A mocked trait can have associated types.
    fn associated_types() -> Outcome {
        Outcome::Missing
    }

    /// A mock can set a barrier: expectations before it are checked before it, those after it after it.
    fn checkpoint() -> Outcome {
        Outcome::Missing
    }

    /// A mock method can take its parameters by reference.
    fn reference_parameters() -> Outcome {
        Outcome::Missing
    }

    /// A mock method can consume its parameters, handing them by value to an arbitrary function.
    fn consume_parameters() -> Outcome {
        Outcome::Missing
    }

    /// A mock method can consume `self`.
    fn consume_self() -> Outcome {
        Outcome::Missing
    }

    /// A mock can be defined for a trait of another crate.
    fn external_trait() -> Outcome {
        Outcome::Missing
    }

    /// Foreign functions can be mocked.
    fn foreign() -> Outcome {
        Outcome::Missing
    }

    /// A trait with a method that has generic parameters can be mocked.
    fn generic_method() -> Outcome {
        Outcome::Missing
    }

    /// A trait with a method that has a generic return value can be mocked.
    fn generic_return() -> Outcome {
        Outcome::Missing
    }

    /// A generic struct can be mocked.
    fn generic_struct() -> Outcome {
        Outcome::Missing
    }

    /// A generic trait can be mocked.
    fn generic_trait() -> Outcome {
        Outcome::Missing
    }

    /// An inherited trait can be mocked.
    fn inherited_trait() -> Outcome {
        Outcome::Missing
    }

    /// A call can match an argument by an arbitrary method.
    fn match_method() -> Outcome {
        Outcome::Missing
    }

    /// A plain struct can be mocked.
    fn mock_struct() -> Outcome {
        Outcome::Missing
    }

    /// An abstract trait can be mocked.
    fn mock_trait() -> Outcome {
        Outcome::Missing
    }

    /// A mock can implement several traits.
    fn multi_trait() -> Outcome {
        Outcome::Missing
    }

    /// A mock method can return the result of a function of its arguments.
    fn return_call_with_args() -> Outcome {
        Outcome::Missing
    }

    /// A mock method can return a reference with a non-`'static` lifetime.
    fn return_lifetime() -> Outcome {
        Outcome::Missing
    }

    /// A mock method can return an owned value that is neither `Copy` nor `Clone`.
    fn return_owned() -> Outcome {
        Outcome::Missing
    }

    /// A mock method can mutate parameters supplied by mutable reference.
    fn return_parameters() -> Outcome {
        Outcome::Missing
    }

    /// A `Send` trait can be mocked, and the mock used across threads.
    fn send() -> Outcome {
        Outcome::Missing
    }

    /// A trait with a static method can be mocked.
    fn static_method() -> Outcome {
        Outcome::Missing
    }

    /// An expectation can assert that it is called a number of times within a range.
    fn times_range() -> Outcome {
        Outcome::Missing
    }

    /// A mock can be derived from a trait.
    fn derive() -> Outcome {
        Outcome::Missing
    }

    /// A mock can fall back to the real object's behaviour.
    fn fallback() -> Outcome {
        Outcome::Missing
    }

    /// A call can match a combination of conditions.
    fn match_combo() -> Outcome {
        Outcome::Missing
    }

    /// A call can match a constant value.
    fn match_constant() -> Outcome {
        Outcome::Missing
    }

    /// A call can match an argument by common operators.
    fn match_operator() -> Outcome {
        Outcome::Missing
    }

    /// A call can match a pattern.
    fn match_pattern() -> Outcome {
        Outcome::Missing
    }

    /// A call can match a range of values.
    fn match_range() -> Outcome {
        Outcome::Missing
    }

    /// A call can match any argument at all.
    fn match_wildcard() -> Outcome {
        Outcome::Missing
    }

    /// A whole module can be mocked.
    fn modules() -> Outcome {
        Outcome::Missing
    }

    /// A mock method can return a constant value.
    fn return_constant() -> Outcome {
        Outcome::Missing
    }

    /// A mock method can return the type's default value.
    fn return_default() -> Outcome {
        Outcome::Missing
    }

    /// A mock method can panic rather than return.
    fn return_panic() -> Outcome {
        Outcome::Missing
    }

    /// An expectation can assert that it is called exactly once.
    fn times_once() -> Outcome {
        Outcome::Missing
    }

    /// An expectation can be called any number of times.
    fn times_any() -> Outcome {
        Outcome::Missing
    }

    /// An expectation can be called a given number of times.
    fn times_n() -> Outcome {
        Outcome::Missing
    }

    /// An expectation can assert that it is never called.
    fn times_never() -> Outcome {
        Outcome::Missing
    }

    /// How many arguments a mocked method can take.
    fn many_args() -> Outcome {
        Outcome::Missing
    }

    /// Whether calls to several methods can be expected in a given order, and across how many mocks.
    fn sequence() -> Outcome {
        Outcome::Missing
    }

    /// Structs, traits and methods with where clauses can be mocked.
    fn where_clause() -> Outcome {
        Outcome::Missing
    }
}

/// Runs the scenario of probe `p` with adapter `S`; the version probe looks
/// up `package`, the adapter's package name (`S::package()`), in `deps`,
/// the build metadata.
pub fn run_probe<S: TestSuite>(p: Probe, package: &str, deps: &Vec<(String, String)>) -> (r: Outcome)
    ensures
        p == Probe::Version ==> r is Completed && r->Completed_0 is Some
            && r->Completed_0->Some_0@ == version_outcome_spec(
            lookup(deps_view(deps@), package@),
        )->Some_0,
{
    match p {
        Probe::AssociatedTypes => S::associated_types(),
        Probe::Checkpoint => S::checkpoint(),
        Probe::ReferenceParameters => S::reference_parameters(),
        Probe::ConsumeParameters => S::consume_parameters(),
        Probe::ConsumeSelf => S::consume_self(),
        Probe::ExternalTrait => S::external_trait(),
        Probe::Foreign => S::foreign(),
        Probe::GenericMethod => S::generic_method(),
        Probe::GenericReturn => S::generic_return(),
        Probe::GenericStruct => S::generic_struct(),
        Probe::GenericTrait => S::generic_trait(),
        Probe::InheritedTrait => S::inherited_trait(),
        Probe::MatchMethod => S::match_method(),
        Probe::MockStruct => S::mock_struct(),
        Probe::MockTrait => S::mock_trait(),
        Probe::MultiTrait => S::multi_trait(),
        Probe::ReturnCallWithArgs => S::return_call_with_args(),
        Probe::ReturnLifetime => S::return_lifetime(),
        Probe::ReturnOwned => S::return_owned(),
        Probe::ReturnParameters => S::return_parameters(),
        Probe::Send => S::send(),
        Probe::StaticMethod => S::static_method(),
        Probe::TimesRange => S::times_range(),
        Probe::Derive => S::derive(),
        Probe::Fallback => S::fallback(),
        Probe::MatchCombo => S::match_combo(),
        Probe::MatchConstant => S::match_constant(),
        Probe::MatchOperator => S::match_operator(),
        Probe::MatchPattern => S::match_pattern(),
        Probe::MatchRange => S::match_range(),
        Probe::MatchWildcard => S::match_wildcard(),
        Probe::Modules => S::modules(),
        Probe::ReturnConstant => S::return_constant(),
        Probe::ReturnDefault => S::return_default(),
        Probe::ReturnPanic => S::return_panic(),
        Probe::TimesOnce => S::times_once(),
        Probe::TimesAny => S::times_any(),
        Probe::TimesN => S::times_n(),
        Probe::TimesNever => S::times_never(),
        Probe::ManyArgs => S::many_args(),
        Probe::Sequence => S::sequence(),
        Probe::Version => version_probe(deps, package),
        Probe::WhereClause => S::where_clause(),
    }
}

} // verus!
