//! The catalog of probes: every feature that a mocking library is measured on,
//! in a fixed order and grouped into three tiers.

use vstd::prelude::*;

verus! {

/// Number of probes in the catalog.
pub const NUM_PROBES: usize = 43;

/// First catalog position of the convenience tier.
pub const FIRST_CONVENIENCE: usize = 23;

/// First catalog position of the quantitative tier.
pub const FIRST_QUANTITATIVE: usize = 39;

/// The group that a probe belongs to.
#[derive(Clone, Copy, Debug, PartialEq, Eq, Structural)]
pub enum Tier {
    /// Capabilities without which a mocking library is of little use.
    Core,
    /// Capabilities that a user could write by hand where they are missing.
    Convenience,
    /// Properties measured as a degree rather than as yes or no.
    Quantitative,
}

/// One feature probe of the catalog.
#[derive(Clone, Copy, Debug, PartialEq, Eq, Structural)]
pub enum Probe {
    /// A mocked trait can have associated types.
    AssociatedTypes,
    /// A mock can set a barrier: expectations before it are checked before it, those after it after it.
    Checkpoint,
    /// A mock method can take its parameters by reference.
    ReferenceParameters,
    /// A mock method can consume its parameters, handing them by value to an arbitrary function.
    ConsumeParameters,
    /// A mock method can consume `self`.
    ConsumeSelf,
    /// A mock can be defined for a trait of another crate.
    ExternalTrait,
    /// Foreign functions can be mocked.
    Foreign,
    /// A trait with a method that has generic parameters can be mocked.
    GenericMethod,
    /// A trait with a method that has a generic return value can be mocked.
    GenericReturn,
    /// A generic struct can be mocked.
    GenericStruct,
    /// A generic trait can be mocked.
    GenericTrait,
    /// An inherited trait can be mocked.
    InheritedTrait,
    /// A call can match an argument by an arbitrary method.
    MatchMethod,
    /// A plain struct can be mocked.
    MockStruct,
    /// An abstract trait can be mocked.
    MockTrait,
    /// A mock can implement several traits.
    MultiTrait,
    /// A mock method can return the result of a function of its arguments.
    ReturnCallWithArgs,
    /// A mock method can return a reference with a non-`'static` lifetime.
    ReturnLifetime,
    /// A mock method can return an owned value that is neither `Copy` nor `Clone`.
    ReturnOwned,
    /// A mock method can mutate parameters supplied by mutable reference.
    ReturnParameters,
    /// A `Send` trait can be mocked, and the mock used across threads.
    Send,
    /// A trait with a static method can be mocked.
    StaticMethod,
    /// An expectation can assert that it is called a number of times within a range.
    TimesRange,
    /// A mock can be derived from a trait.
    Derive,
    /// A mock can fall back to the real object's behaviour.
    Fallback,
    /// A call can match a combination of conditions.
    MatchCombo,
    /// A call can match a constant value.
    MatchConstant,
    /// A call can match an argument by common operators.
    MatchOperator,
    /// A call can match a pattern.
    MatchPattern,
    /// A call can match a range of values.
    MatchRange,
    /// A call can match any argument at all.
    MatchWildcard,
    /// A whole module can be mocked.
    Modules,
    /// A mock method can return a constant value.
    ReturnConstant,
    /// A mock method can return the type's default value.
    ReturnDefault,
    /// A mock method can panic rather than return.
    ReturnPanic,
    /// An expectation can assert that it is called exactly once.
    TimesOnce,
    /// An expectation can be called any number of times.
    TimesAny,
    /// An expectation can be called a given number of times.
    TimesN,
    /// An expectation can assert that it is never called.
    TimesNever,
    /// How many arguments a mocked method can take.
    ManyArgs,
    /// Whether calls to several methods can be expected in a given order, and across how many mocks.
    Sequence,
    /// The resolved version of the library.
    Version,
    /// Structs, traits and methods with where clauses can be mocked.
    WhereClause,
}

/// Position of a probe in the catalog.
pub open spec fn probe_index(p: Probe) -> int {
    match p {
        Probe::AssociatedTypes => 0,
        Probe::Checkpoint => 1,
        Probe::ReferenceParameters => 2,
        Probe::ConsumeParameters => 3,
        Probe::ConsumeSelf => 4,
        Probe::ExternalTrait => 5,
        Probe::Foreign => 6,
        Probe::GenericMethod => 7,
        Probe::GenericReturn => 8,
        Probe::GenericStruct => 9,
        Probe::GenericTrait => 10,
        Probe::InheritedTrait => 11,
        Probe::MatchMethod => 12,
        Probe::MockStruct => 13,
        Probe::MockTrait => 14,
        Probe::MultiTrait => 15,
        Probe::ReturnCallWithArgs => 16,
        Probe::ReturnLifetime => 17,
        Probe::ReturnOwned => 18,
        Probe::ReturnParameters => 19,
        Probe::Send => 20,
        Probe::StaticMethod => 21,
        Probe::TimesRange => 22,
        Probe::Derive => 23,
        Probe::Fallback => 24,
        Probe::MatchCombo => 25,
        Probe::MatchConstant => 26,
        Probe::MatchOperator => 27,
        Probe::MatchPattern => 28,
        Probe::MatchRange => 29,
        Probe::MatchWildcard => 30,
        Probe::Modules => 31,
        Probe::ReturnConstant => 32,
        Probe::ReturnDefault => 33,
        Probe::ReturnPanic => 34,
        Probe::TimesOnce => 35,
        Probe::TimesAny => 36,
        Probe::TimesN => 37,
        Probe::TimesNever => 38,
        Probe::ManyArgs => 39,
        Probe::Sequence => 40,
        Probe::Version => 41,
        Probe::WhereClause => 42,
    }
}

/// The probe at a position of the catalog (positions past the end give the last one).
pub open spec fn probe_at(i: int) -> Probe {
    if i == 0 {
        Probe::AssociatedTypes
    } else if i == 1 {
        Probe::Checkpoint
    } else if i == 2 {
        Probe::ReferenceParameters
    } else if i == 3 {
        Probe::ConsumeParameters
    } else if i == 4 {
        Probe::ConsumeSelf
    } else if i == 5 {
        Probe::ExternalTrait
    } else if i == 6 {
        Probe::Foreign
    } else if i == 7 {
        Probe::GenericMethod
    } else if i == 8 {
        Probe::GenericReturn
    } else if i == 9 {
        Probe::GenericStruct
    } else if i == 10 {
        Probe::GenericTrait
    } else if i == 11 {
        Probe::InheritedTrait
    } else if i == 12 {
        Probe::MatchMethod
    } else if i == 13 {
        Probe::MockStruct
    } else if i == 14 {
        Probe::MockTrait
    } else if i == 15 {
        Probe::MultiTrait
    } else if i == 16 {
        Probe::ReturnCallWithArgs
    } else if i == 17 {
        Probe::ReturnLifetime
    } else if i == 18 {
        Probe::ReturnOwned
    } else if i == 19 {
        Probe::ReturnParameters
    } else if i == 20 {
        Probe::Send
    } else if i == 21 {
        Probe::StaticMethod
    } else if i == 22 {
        Probe::TimesRange
    } else if i == 23 {
        Probe::Derive
    } else if i == 24 {
        Probe::Fallback
    } else if i == 25 {
        Probe::MatchCombo
    } else if i == 26 {
        Probe::MatchConstant
    } else if i == 27 {
        Probe::MatchOperator
    } else if i == 28 {
        Probe::MatchPattern
    } else if i == 29 {
        Probe::MatchRange
    } else if i == 30 {
        Probe::MatchWildcard
    } else if i == 31 {
        Probe::Modules
    } else if i == 32 {
        Probe::ReturnConstant
    } else if i == 33 {
        Probe::ReturnDefault
    } else if i == 34 {
        Probe::ReturnPanic
    } else if i == 35 {
        Probe::TimesOnce
    } else if i == 36 {
        Probe::TimesAny
    } else if i == 37 {
        Probe::TimesN
    } else if i == 38 {
        Probe::TimesNever
    } else if i == 39 {
        Probe::ManyArgs
    } else if i == 40 {
        Probe::Sequence
    } else if i == 41 {
        Probe::Version
    } else {
        Probe::WhereClause
    }
}

/// The identifier under which a probe is known.
pub open spec fn probe_name(p: Probe) -> Seq<char> {
    match p {
        Probe::AssociatedTypes => "associated_types"@,
        Probe::Checkpoint => "checkpoint"@,
        Probe::ReferenceParameters => "reference_parameters"@,
        Probe::ConsumeParameters => "consume_parameters"@,
        Probe::ConsumeSelf => "consume_self"@,
        Probe::ExternalTrait => "external_trait"@,
        Probe::Foreign => "foreign"@,
        Probe::GenericMethod => "generic_method"@,
        Probe::GenericReturn => "generic_return"@,
        Probe::GenericStruct => "generic_struct"@,
        Probe::GenericTrait => "generic_trait"@,
        Probe::InheritedTrait => "inherited_trait"@,
        Probe::MatchMethod => "match_method"@,
        Probe::MockStruct => "mock_struct"@,
        Probe::MockTrait => "mock_trait"@,
        Probe::MultiTrait => "multi_trait"@,
        Probe::ReturnCallWithArgs => "return_call_with_args"@,
        Probe::ReturnLifetime => "return_lifetime"@,
        Probe::ReturnOwned => "return_owned"@,
        Probe::ReturnParameters => "return_parameters"@,
        Probe::Send => "send"@,
        Probe::StaticMethod => "static_method"@,
        Probe::TimesRange => "times_range"@,
        Probe::Derive => "derive"@,
        Probe::Fallback => "fallback"@,
        Probe::MatchCombo => "match_combo"@,
        Probe::MatchConstant => "match_constant"@,
        Probe::MatchOperator => "match_operator"@,
        Probe::MatchPattern => "match_pattern"@,
        Probe::MatchRange => "match_range"@,
        Probe::MatchWildcard => "match_wildcard"@,
        Probe::Modules => "modules"@,
        Probe::ReturnConstant => "return_constant"@,
        Probe::ReturnDefault => "return_default"@,
        Probe::ReturnPanic => "return_panic"@,
        Probe::TimesOnce => "times_once"@,
        Probe::TimesAny => "times_any"@,
        Probe::TimesN => "times_n"@,
        Probe::TimesNever => "times_never"@,
        Probe::ManyArgs => "many_args"@,
        Probe::Sequence => "sequence"@,
        Probe::Version => "version"@,
        Probe::WhereClause => "where_clause"@,
    }
}

/// The tier of a probe: the catalog holds the core probes first, then the
/// convenience ones, then the quantitative ones.
pub open spec fn tier_of(p: Probe) -> Tier {
    if probe_index(p) < FIRST_CONVENIENCE {
        Tier::Core
    } else if probe_index(p) < FIRST_QUANTITATIVE {
        Tier::Convenience
    } else {
        Tier::Quantitative
    }
}

/// The catalog in its order.
pub open spec fn catalog_seq() -> Seq<Probe> {
    Seq::new(NUM_PROBES as nat, |i: int| probe_at(i))
}

/// Each position of the catalog holds the probe of that position.
pub proof fn lemma_index_at(i: int)
    requires
        0 <= i < NUM_PROBES,
    ensures
        probe_index(probe_at(i)) == i,
{
}

/// Each probe stands at its own position of the catalog.
pub proof fn lemma_at_index(p: Probe)
    ensures
        0 <= probe_index(p) < NUM_PROBES,
        probe_at(probe_index(p)) == p,
{
}

/// The catalog holds every probe exactly once.
pub proof fn lemma_catalog_complete()
    ensures
        catalog_seq().len() == NUM_PROBES,
        forall|p: Probe| #[trigger] catalog_seq()[probe_index(p)] == p,
        forall|i: int, j: int|
            0 <= i < j < NUM_PROBES ==> #[trigger] catalog_seq()[i] != #[trigger] catalog_seq()[j],
{
    assert forall|p: Probe| #[trigger] catalog_seq()[probe_index(p)] == p by {
        lemma_at_index(p);
    }
    assert forall|i: int, j: int|
        0 <= i < j < NUM_PROBES implies #[trigger] catalog_seq()[i] != #[trigger] catalog_seq()[j] by {
        lemma_index_at(i);
        lemma_index_at(j);
    }
}

impl Probe {
        pub fn index(self) -> (r: usize)
            ensures
                r == probe_index(self),
        {
            match self {
                Probe::AssociatedTypes => 0,
                Probe::Checkpoint => 1,
                Probe::ReferenceParameters => 2,
                Probe::ConsumeParameters => 3,
                Probe::ConsumeSelf => 4,
                Probe::ExternalTrait => 5,
                Probe::Foreign => 6,
                Probe::GenericMethod => 7,
                Probe::GenericReturn => 8,
                Probe::GenericStruct => 9,
                Probe::GenericTrait => 10,
                Probe::InheritedTrait => 11,
                Probe::MatchMethod => 12,
                Probe::MockStruct => 13,
                Probe::MockTrait => 14,
                Probe::MultiTrait => 15,
                Probe::ReturnCallWithArgs => 16,
                Probe::ReturnLifetime => 17,
                Probe::ReturnOwned => 18,
                Probe::ReturnParameters => 19,
                Probe::Send => 20,
                Probe::StaticMethod => 21,
                Probe::TimesRange => 22,
                Probe::Derive => 23,
                Probe::Fallback => 24,
                Probe::MatchCombo => 25,
                Probe::MatchConstant => 26,
                Probe::MatchOperator => 27,
                Probe::MatchPattern => 28,
                Probe::MatchRange => 29,
                Probe::MatchWildcard => 30,
                Probe::Modules => 31,
                Probe::ReturnConstant => 32,
                Probe::ReturnDefault => 33,
                Probe::ReturnPanic => 34,
                Probe::TimesOnce => 35,
                Probe::TimesAny => 36,
                Probe::TimesN => 37,
                Probe::TimesNever => 38,
                Probe::ManyArgs => 39,
                Probe::Sequence => 40,
                Probe::Version => 41,
                Probe::WhereClause => 42,
            }
        }

        pub fn from_index(i: usize) -> (r: Probe)
            requires
                i < NUM_PROBES,
            ensures
                r == probe_at(i as int),
        {
            match i {
                0 => Probe::AssociatedTypes,
                1 => Probe::Checkpoint,
                2 => Probe::ReferenceParameters,
                3 => Probe::ConsumeParameters,
                4 => Probe::ConsumeSelf,
                5 => Probe::ExternalTrait,
                6 => Probe::Foreign,
                7 => Probe::GenericMethod,
                8 => Probe::GenericReturn,
                9 => Probe::GenericStruct,
                10 => Probe::GenericTrait,
                11 => Probe::InheritedTrait,
                12 => Probe::MatchMethod,
                13 => Probe::MockStruct,
                14 => Probe::MockTrait,
                15 => Probe::MultiTrait,
                16 => Probe::ReturnCallWithArgs,
                17 => Probe::ReturnLifetime,
                18 => Probe::ReturnOwned,
                19 => Probe::ReturnParameters,
                20 => Probe::Send,
                21 => Probe::StaticMethod,
                22 => Probe::TimesRange,
                23 => Probe::Derive,
                24 => Probe::Fallback,
                25 => Probe::MatchCombo,
                26 => Probe::MatchConstant,
                27 => Probe::MatchOperator,
                28 => Probe::MatchPattern,
                29 => Probe::MatchRange,
                30 => Probe::MatchWildcard,
                31 => Probe::Modules,
                32 => Probe::ReturnConstant,
                33 => Probe::ReturnDefault,
                34 => Probe::ReturnPanic,
                35 => Probe::TimesOnce,
                36 => Probe::TimesAny,
                37 => Probe::TimesN,
                38 => Probe::TimesNever,
                39 => Probe::ManyArgs,
                40 => Probe::Sequence,
                41 => Probe::Version,
                _ => Probe::WhereClause,
            }
        }

        pub fn name(self) -> (r: &'static str)
            ensures
                r@ == probe_name(self),
        {
            match self {
                Probe::AssociatedTypes => "associated_types",
                Probe::Checkpoint => "checkpoint",
                Probe::ReferenceParameters => "reference_parameters",
                Probe::ConsumeParameters => "consume_parameters",
                Probe::ConsumeSelf => "consume_self",
                Probe::ExternalTrait => "external_trait",
                Probe::Foreign => "foreign",
                Probe::GenericMethod => "generic_method",
                Probe::GenericReturn => "generic_return",
                Probe::GenericStruct => "generic_struct",
                Probe::GenericTrait => "generic_trait",
                Probe::InheritedTrait => "inherited_trait",
                Probe::MatchMethod => "match_method",
                Probe::MockStruct => "mock_struct",
                Probe::MockTrait => "mock_trait",
                Probe::MultiTrait => "multi_trait",
                Probe::ReturnCallWithArgs => "return_call_with_args",
                Probe::ReturnLifetime => "return_lifetime",
                Probe::ReturnOwned => "return_owned",
                Probe::ReturnParameters => "return_parameters",
                Probe::Send => "send",
                Probe::StaticMethod => "static_method",
                Probe::TimesRange => "times_range",
                Probe::Derive => "derive",
                Probe::Fallback => "fallback",
                Probe::MatchCombo => "match_combo",
                Probe::MatchConstant => "match_constant",
                Probe::MatchOperator => "match_operator",
                Probe::MatchPattern => "match_pattern",
                Probe::MatchRange => "match_range",
                Probe::MatchWildcard => "match_wildcard",
                Probe::Modules => "modules",
                Probe::ReturnConstant => "return_constant",
                Probe::ReturnDefault => "return_default",
                Probe::ReturnPanic => "return_panic",
                Probe::TimesOnce => "times_once",
                Probe::TimesAny => "times_any",
                Probe::TimesN => "times_n",
                Probe::TimesNever => "times_never",
                Probe::ManyArgs => "many_args",
                Probe::Sequence => "sequence",
                Probe::Version => "version",
                Probe::WhereClause => "where_clause",
            }
        }

    pub fn tier(self) -> (r: Tier)
        ensures
            r == tier_of(self),
    {
        let i = self.index();
        if i < FIRST_CONVENIENCE {
            Tier::Core
        } else if i < FIRST_QUANTITATIVE {
            Tier::Convenience
        } else {
            Tier::Quantitative
        }
    }
}

/// The whole catalog, in order.
pub fn catalog() -> (r: Vec<Probe>)
    ensures
        r@ == catalog_seq(),
{
    let mut r: Vec<Probe> = Vec::new();
    let mut i: usize = 0;
    while i < NUM_PROBES
        invariant
            i <= NUM_PROBES,
            r@ == catalog_seq().take(i as int),
        decreases NUM_PROBES - i,
    {
        r.push(Probe::from_index(i));
        i += 1;
    }
    assert(r@ =~= catalog_seq());
    r
}

} // verus!
