use mock_shootout::catalog::{catalog, Probe, NUM_PROBES};
use mock_shootout::matrix::{AlreadyRecorded, Matrix};
use mock_shootout::report::{header_line, render, row_line};
use mock_shootout::runner::Runner;
use mock_shootout::verdict::{Outcome, Verdict};

fn names(n: &[&str]) -> Vec<String> {
    n.iter().map(|s| s.to_string()).collect()
}

/// Runs the matrix, taking each pair's outcome from `scenario`.
fn run_with(adapters: &[&str], scenario: impl Fn(usize, Probe) -> Outcome) -> Matrix {
    let mut runner = Runner::new(names(adapters));
    let mut steps = 0;
    while let Some((a, p)) = runner.next() {
        runner.record(scenario(a, p));
        steps += 1;
    }
    assert_eq!(steps, adapters.len() * NUM_PROBES);
    runner.finish()
}

#[test]
fn every_pair_gets_exactly_one_verdict() {
    let m = run_with(&["one", "two", "three"], |_, _| Outcome::Completed(None));
    assert!(m.is_complete());
    for a in 0..3 {
        for p in catalog() {
            assert!(m.verdict(a, p).is_some());
        }
    }
}

#[test]
fn runner_visits_pairs_in_order() {
    let mut runner = Runner::new(names(&["x", "y"]));
    assert_eq!(runner.next(), Some((0, Probe::AssociatedTypes)));
    for _ in 0..NUM_PROBES {
        runner.record(Outcome::Missing);
    }
    assert_eq!(runner.next(), Some((1, Probe::AssociatedTypes)));
    runner.record(Outcome::Missing);
    assert_eq!(runner.next(), Some((1, Probe::Checkpoint)));
}

#[test]
fn a_crash_touches_only_its_own_cell() {
    let crash_at = (1, Probe::GenericTrait);
    let m = run_with(&["a", "b", "c"], |a, p| {
        if (a, p) == crash_at {
            Outcome::Failed("boom".to_string())
        } else {
            Outcome::Completed(None)
        }
    });
    for a in 0..3 {
        for p in catalog() {
            let expected = if (a, p) == crash_at {
                Verdict::Crashed
            } else {
                Verdict::Supported
            };
            assert_eq!(m.verdict(a, p), &Some(expected));
        }
    }
}

#[test]
fn rerun_gives_the_same_verdicts() {
    let scenario = |a: usize, p: Probe| match (a + p.index()) % 4 {
        0 => Outcome::Completed(Some(format!("{}", a))),
        1 => Outcome::Unsupported,
        2 => Outcome::Missing,
        _ => Outcome::Failed("stop".to_string()),
    };
    let first = run_with(&["p", "q"], scenario);
    let second = run_with(&["p", "q"], scenario);
    for a in 0..2 {
        for p in catalog() {
            assert_eq!(first.verdict(a, p), second.verdict(a, p));
        }
    }
    assert_eq!(render(&first), render(&second));
}

#[test]
fn many_args_cell_holds_the_degree() {
    let m = run_with(&["lib"], |_, p| {
        if p == Probe::ManyArgs {
            Outcome::Completed(Some("16".to_string()))
        } else {
            Outcome::Missing
        }
    });
    assert_eq!(m.verdict(0, Probe::ManyArgs), &Some(Verdict::Quantitative("16".to_string())));
}

#[test]
fn a_cell_is_filled_once() {
    let mut m = Matrix::new(names(&["only"]));
    assert_eq!(m.verdict(0, Probe::Derive), &None);
    assert_eq!(m.record(0, Probe::Derive, Verdict::Supported), Ok(()));
    assert_eq!(m.record(0, Probe::Derive, Verdict::Crashed), Err(AlreadyRecorded));
    assert_eq!(m.verdict(0, Probe::Derive), &Some(Verdict::Supported));
    assert!(!m.is_complete());
    assert_eq!(m.num_adapters(), 1);
    assert_eq!(m.adapter_name(0), "only");
}

#[test]
fn report_lines_are_grouped_by_tier() {
    let m = run_with(&["alpha", "beta"], |a, p| match (a, p) {
        (0, Probe::AssociatedTypes) => Outcome::Completed(None),
        (1, Probe::AssociatedTypes) => Outcome::Failed("x".to_string()),
        (0, Probe::Version) => Outcome::Completed(Some("1.2.3".to_string())),
        _ => Outcome::Unsupported,
    });
    let lines = render(&m);
    assert_eq!(lines.len(), 1 + 3 + NUM_PROBES);
    assert_eq!(lines[0], "probe | alpha | beta");
    assert_eq!(lines[1], "[core]");
    assert_eq!(lines[2], "associated_types | yes | CRASH");
    assert_eq!(lines[3], "checkpoint | no | no");
    assert_eq!(lines[1 + 1 + 23], "[convenience]");
    assert_eq!(lines[1 + 2 + 23], "derive | no | no");
    assert_eq!(lines[1 + 2 + 39], "[quantitative]");
    assert_eq!(lines[1 + 3 + 41], "version | 1.2.3 | no");
    assert_eq!(header_line(&m), "probe | alpha | beta");
    assert_eq!(row_line(&m, Probe::Version), "version | 1.2.3 | no");
}

#[test]
fn report_of_no_adapters() {
    let m = run_with(&[], |_, _| Outcome::Missing);
    let lines = render(&m);
    assert_eq!(lines[0], "probe");
    assert_eq!(lines[2], "associated_types");
}

#[test]
fn unrecorded_cell_renders_as_dash() {
    let m = Matrix::new(names(&["z"]));
    assert_eq!(row_line(&m, Probe::Sequence), "sequence | -");
}
