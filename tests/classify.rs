use mock_shootout::catalog::{catalog, Probe, Tier, NUM_PROBES};
use mock_shootout::verdict::{classify, Outcome, Verdict};

#[test]
fn catalog_holds_every_probe_once_in_tier_order() {
    let c = catalog();
    assert_eq!(c.len(), NUM_PROBES);
    for (i, p) in c.iter().enumerate() {
        assert_eq!(p.index(), i);
        assert_eq!(Probe::from_index(i), *p);
    }
    for w in c.windows(2) {
        let rank = |t: Tier| match t {
            Tier::Core => 0,
            Tier::Convenience => 1,
            Tier::Quantitative => 2,
        };
        assert!(rank(w[0].tier()) <= rank(w[1].tier()));
    }
    assert_eq!(c[0], Probe::AssociatedTypes);
    assert_eq!(c[NUM_PROBES - 1], Probe::WhereClause);
}

#[test]
fn probe_names_and_tiers() {
    assert_eq!(Probe::TimesNever.name(), "times_never");
    assert_eq!(Probe::ReturnCallWithArgs.name(), "return_call_with_args");
    assert_eq!(Probe::Send.tier(), Tier::Core);
    assert_eq!(Probe::ReturnConstant.tier(), Tier::Convenience);
    assert_eq!(Probe::ManyArgs.tier(), Tier::Quantitative);
    assert_eq!(Probe::Version.tier(), Tier::Quantitative);
    let mut names: Vec<&str> = catalog().iter().map(|p| p.name()).collect();
    names.sort();
    names.dedup();
    assert_eq!(names.len(), NUM_PROBES);
}

#[test]
fn missing_entry_is_classified_as_explicit_non_support() {
    for p in catalog() {
        assert_eq!(classify(p, Outcome::Missing), classify(p, Outcome::Unsupported));
        assert_eq!(classify(p, Outcome::Missing), Verdict::ExplicitlyUnsupported);
    }
}

#[test]
fn completed_scenario_is_supported() {
    assert_eq!(classify(Probe::MockTrait, Outcome::Completed(None)), Verdict::Supported);
    assert_eq!(
        classify(Probe::Checkpoint, Outcome::Completed(Some("ignored".to_string()))),
        Verdict::Supported
    );
}

#[test]
fn interrupted_scenario_is_a_crash() {
    assert_eq!(
        classify(Probe::TimesNever, Outcome::Failed("expected no call".to_string())),
        Verdict::Crashed
    );
    assert_eq!(classify(Probe::ManyArgs, Outcome::Failed(String::new())), Verdict::Crashed);
}

#[test]
fn many_args_degree_is_recorded_verbatim() {
    assert_eq!(
        classify(Probe::ManyArgs, Outcome::Completed(Some("16".to_string()))),
        Verdict::Quantitative("16".to_string())
    );
    assert_eq!(classify(Probe::WhereClause, Outcome::Completed(None)), Verdict::Supported);
}

#[test]
fn return_panic_follows_the_general_rule() {
    assert_eq!(classify(Probe::ReturnPanic, Outcome::Completed(None)), Verdict::Supported);
    assert_eq!(
        classify(Probe::ReturnPanic, Outcome::Failed("Panic".to_string())),
        Verdict::Crashed
    );
    assert_eq!(
        classify(Probe::ReturnPanic, Outcome::Unsupported),
        Verdict::ExplicitlyUnsupported
    );
}

#[test]
fn quantitative_probe_without_degree_is_supported() {
    assert_eq!(classify(Probe::Sequence, Outcome::Completed(None)), Verdict::Supported);
    assert_eq!(classify(Probe::Version, Outcome::Failed("x".to_string())), Verdict::Crashed);
}
