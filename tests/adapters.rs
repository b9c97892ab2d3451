use mock_shootout::catalog::{catalog, Probe};
use mock_shootout::pseudo::{
    checkpoint_case, doctest, external_trait_case, generic_struct_case, many_args_case,
    match_method_case, mock_struct_case, return_call_with_args_case, return_constant_case,
    sequence_case, static_method_case, successor, times_n_case, times_never_case, Bean, BeanMock,
    GenericMock, Pseudo,
};
use mock_shootout::suite::run_probe;
use mock_shootout::verdict::{classify, Outcome, Verdict};
use mock_shootout::version::{dependency_version, version_outcome, version_probe, MetadataNotFound};
use mock_shootout::TestSuite;
use mock_shootout::UniquelyOwned;

fn deps() -> Vec<(String, String)> {
    vec![
        ("mock-it".to_string(), "0.9.0".to_string()),
        ("pseudo".to_string(), "0.2.0".to_string()),
        ("pseudo".to_string(), "9.9.9".to_string()),
    ]
}

#[test]
fn return_constant_gives_six() {
    assert_eq!(return_constant_case(6, 0), 6);
    assert_eq!(return_constant_case(-7, 99), -7);
    let o = Pseudo::return_constant();
    assert_eq!(classify(Probe::ReturnConstant, o), Verdict::Supported);
}

#[test]
fn times_never_without_a_call_is_supported() {
    let o = times_never_case(0);
    assert_eq!(o, Outcome::Completed(None));
    assert_eq!(classify(Probe::TimesNever, o), Verdict::Supported);
}

#[test]
fn times_never_with_a_call_crashes() {
    let o = times_never_case(1);
    assert!(matches!(o, Outcome::Failed(_)));
    assert_eq!(classify(Probe::TimesNever, o), Verdict::Crashed);
}

#[test]
fn pseudo_counts_calls() {
    assert_eq!(times_n_case(0), 0);
    assert_eq!(times_n_case(3), 3);
}

#[test]
fn pseudo_scenarios_complete() {
    assert_eq!(doctest(), Outcome::Completed(None));
    assert_eq!(checkpoint_case(), Outcome::Completed(None));
    assert_eq!(sequence_case(), Outcome::Completed(Some("single method".to_string())));
}

#[test]
fn pseudo_adapter_runs_every_probe() {
    let d = deps();
    let mut supported = 0;
    for p in catalog() {
        let v = classify(p, run_probe::<Pseudo>(p, "pseudo", &d));
        assert_ne!(v, Verdict::Crashed, "{:?}", p);
        if v == Verdict::Supported {
            supported += 1;
        }
    }
    assert_eq!(supported, 20);
    assert_eq!(
        classify(Probe::Sequence, run_probe::<Pseudo>(Probe::Sequence, "pseudo", &d)),
        Verdict::Quantitative("single method".to_string())
    );
    assert_eq!(Pseudo::name(), "pseudo");
}

#[test]
fn version_probe_reports_resolved_version() {
    let d = deps();
    assert_eq!(
        run_probe::<Pseudo>(Probe::Version, "pseudo", &d),
        Outcome::Completed(Some("0.2.0".to_string()))
    );
    assert_eq!(
        classify(Probe::Version, version_probe(&d, "mock-it")),
        Verdict::Quantitative("0.9.0".to_string())
    );
}

#[test]
fn version_probe_without_metadata() {
    let d = deps();
    assert_eq!(dependency_version(&d, "mockall"), Err(MetadataNotFound));
    assert_eq!(
        version_probe(&d, "mockall"),
        Outcome::Completed(Some("unknown version".to_string()))
    );
    assert_eq!(
        run_probe::<Pseudo>(Probe::Version, "pseudo", &Vec::new()),
        Outcome::Completed(Some("unknown version".to_string()))
    );
}

#[test]
fn dependency_lookup_takes_the_first_entry() {
    let d = deps();
    assert_eq!(dependency_version(&d, "pseudo"), Ok("0.2.0".to_string()));
    assert_eq!(dependency_version(&d, "mock-i"), Err(MetadataNotFound));
    assert_eq!(
        version_outcome(Ok("1.0.0".to_string())),
        Outcome::Completed(Some("1.0.0".to_string()))
    );
}

#[test]
fn uniquely_owned_compares_by_value() {
    assert_eq!(UniquelyOwned(42), UniquelyOwned(42));
    assert_ne!(UniquelyOwned(1), UniquelyOwned(2));
}

#[test]
fn pseudo_many_args_records_twelve() {
    assert_eq!(many_args_case(), Outcome::Completed(Some("12".to_string())));
    let d = deps();
    assert_eq!(
        classify(Probe::ManyArgs, run_probe::<Pseudo>(Probe::ManyArgs, "pseudo", &d)),
        Verdict::Quantitative("12".to_string())
    );
}

#[test]
fn pseudo_restored_scenarios_complete() {
    assert_eq!(external_trait_case(), Outcome::Completed(None));
    assert_eq!(generic_struct_case(), Outcome::Completed(None));
    assert_eq!(match_method_case(), Outcome::Completed(None));
    assert_eq!(mock_struct_case(), Outcome::Completed(None));
    assert_eq!(return_call_with_args_case(), Outcome::Completed(None));
    assert_eq!(static_method_case(), Outcome::Completed(None));
}

#[test]
fn pseudo_computed_reply_follows_the_argument() {
    assert_eq!(successor(4), 5);
    assert_eq!(successor(i64::MAX), i64::MAX);
    assert_eq!(successor(-1), 0);
}

#[test]
fn pseudo_mocks_count_and_answer() {
    let mut bean = BeanMock::new();
    assert_eq!(bean.num_meals(), 0);
    bean.eat();
    bean.eat();
    assert_eq!(bean.num_meals(), 2);
    Bean.eat();
    let mut g: GenericMock<&str> = GenericMock::new(9);
    assert_eq!(g.foo("x"), 9);
}

#[test]
fn run_probe_looks_up_the_adapters_own_package() {
    let d = vec![
        ("mock-it".to_string(), "0.9.0".to_string()),
        ("pseudo".to_string(), "0.2.0".to_string()),
    ];
    assert_eq!(Pseudo::package(), "pseudo");
    assert_eq!(
        classify(Probe::Version, run_probe::<Pseudo>(Probe::Version, &Pseudo::package(), &d)),
        Verdict::Quantitative("0.2.0".to_string())
    );
    assert_eq!(
        run_probe::<Pseudo>(Probe::Version, "mock-it", &d),
        Outcome::Completed(Some("0.9.0".to_string()))
    );
}
