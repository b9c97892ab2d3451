//! The runner: it walks every (adapter, probe) pair in order, takes what
//! each scenario gave, classifies it and fills the matrix.
//!
//! The runner makes the decisions only. Whoever drives it runs the scenario
//! that `next` names inside a boundary that catches its failures, and hands
//! the outcome to `record`.

use crate::catalog::{probe_at, probe_index, Probe, NUM_PROBES};
use crate::matrix::{cell_pos, Matrix};
use crate::verdict::{classify, classify_spec, Outcome};
use vstd::prelude::*;

verus! {

/// Whether the pair (adapter `a`, catalog position `i`) comes before the
/// cursor (`ca`, `ci`).
pub open spec fn before(a: int, i: int, ca: int, ci: int) -> bool {
    a < ca || (a == ca && i < ci)
}

/// One run of the whole matrix.
pub struct Runner {
    matrix: Matrix,
    adapter: usize,
    probe: usize,
    outcomes: Ghost<Map<(int, int), Outcome>>,
}

impl Runner {
    /// The matrix as filled so far.
    pub closed spec fn matrix(&self) -> Matrix {
        self.matrix
    }

    /// The adapter whose scenario runs next.
    pub closed spec fn cur_adapter(&self) -> int {
        self.adapter as int
    }

    /// The catalog position of the probe that runs next.
    pub closed spec fn cur_probe(&self) -> int {
        self.probe as int
    }

    /// What each pair run so far gave, by (adapter, catalog position).
    pub closed spec fn outcomes(&self) -> Map<(int, int), Outcome> {
        self.outcomes@
    }

    pub open spec fn filled(&self, a: int, i: int) -> bool {
        before(a, i, self.cur_adapter(), self.cur_probe())
    }

    pub open spec fn is_done(&self) -> bool {
        self.cur_adapter() == self.matrix().adapter_count()
    }

    pub open spec fn wf(&self) -> bool {
        &&& self.matrix().wf()
        &&& 0 <= self.cur_adapter() <= self.matrix().adapter_count()
        &&& 0 <= self.cur_probe() < NUM_PROBES
        &&& self.is_done() ==> self.cur_probe() == 0
        &&& forall|a: int, i: int|
            0 <= a < self.matrix().adapter_count() && 0 <= i < NUM_PROBES ==> #[trigger] self.cell_ok(
                a,
                i,
            )
    }

    /// A pair already run holds the verdict of its outcome; any other pair
    /// holds none.
    pub open spec fn cell_ok(&self, a: int, i: int) -> bool {
        if self.filled(a, i) {
            &&& self.outcomes().contains_key((a, i))
            &&& self.matrix().cell_at(a, i) == Some(
                classify_spec(probe_at(i), self.outcomes()[(a, i)]),
            )
        } else {
            self.matrix().cell_at(a, i) is None
        }
    }

    /// A run over the adapters of the given names, with nothing run yet.
    pub fn new(names: Vec<String>) -> (r: Runner)
        requires
            names@.len() * NUM_PROBES <= usize::MAX,
        ensures
            r.wf(),
            r.matrix().names() == names@.map_values(|s: String| s@),
            r.cur_adapter() == 0,
            r.cur_probe() == 0,
    {
        let matrix = Matrix::new(names);
        let r = Runner { matrix, adapter: 0, probe: 0, outcomes: Ghost(Map::empty()) };
        assert forall|a: int, i: int|
            0 <= a < r.matrix().adapter_count() && 0 <= i < NUM_PROBES implies #[trigger] r.cell_ok(
            a,
            i,
        ) by {
            r.matrix.lemma_pos(a, i);
        }
        r
    }

    /// The pair to run next: an adapter and a probe; `None` once every pair
    /// has been run.
    pub fn next(&self) -> (r: Option<(usize, Probe)>)
        requires
            self.wf(),
        ensures
            self.is_done() ==> r is None,
            !self.is_done() ==> r == Some(
                (self.cur_adapter() as usize, probe_at(self.cur_probe())),
            ),
    {
        if self.adapter == self.matrix.num_adapters() {
            None
        } else {
            Some((self.adapter, Probe::from_index(self.probe)))
        }
    }

    /// Takes what the scenario of the pair named by `next` gave, records its
    /// verdict and moves on to the following pair. Any outcome is taken, a
    /// crash included: the run goes on.
    pub fn record(&mut self, o: Outcome)
        requires
            old(self).wf(),
            !old(self).is_done(),
        ensures
            final(self).wf(),
            final(self).matrix().names() == old(self).matrix().names(),
            final(self).outcomes() == old(self).outcomes().insert(
                (old(self).cur_adapter(), old(self).cur_probe()),
                o,
            ),
            final(self).matrix().cells() == old(self).matrix().cells().update(
                cell_pos(old(self).cur_adapter(), old(self).cur_probe()),
                Some(classify_spec(probe_at(old(self).cur_probe()), o)),
            ),
            old(self).cur_probe() + 1 < NUM_PROBES ==> final(self).cur_adapter()
                == old(self).cur_adapter() && final(self).cur_probe() == old(self).cur_probe() + 1,
            old(self).cur_probe() + 1 == NUM_PROBES ==> final(self).cur_adapter()
                == old(self).cur_adapter() + 1 && final(self).cur_probe() == 0,
    {
        let p = Probe::from_index(self.probe);
        proof {
            crate::catalog::lemma_index_at(self.probe as int);
        }
        let ghost o_spec = o;
        let v = classify(p, o);
        let ghost old_self = *self;
        proof {
            assert(old_self.cell_ok(self.adapter as int, self.probe as int));
        }
        let _ = self.matrix.record(self.adapter, p, v);
        proof {
            self.outcomes@ = self.outcomes@.insert((self.adapter as int, self.probe as int), o_spec);
        }
        if self.probe + 1 < NUM_PROBES {
            self.probe = self.probe + 1;
        } else {
            self.adapter = self.adapter + 1;
            self.probe = 0;
        }
        assert forall|a: int, i: int|
            0 <= a < self.matrix().adapter_count() && 0 <= i < NUM_PROBES implies #[trigger] self.cell_ok(
            a,
            i,
        ) by {
            assert(old_self.cell_ok(a, i));
            old_self.matrix.lemma_pos(a, i);
        }
    }

    /// Ends the run and hands over its matrix.
    pub fn finish(self) -> (r: Matrix)
        requires
            self.wf(),
            self.is_done(),
        ensures
            r == self.matrix(),
            r.wf(),
            r.complete(),
    {
        proof {
            lemma_complete(self);
        }
        self.matrix
    }
}

/// Once every pair has been run, each (adapter, probe) cell holds exactly
/// one verdict, the classification of that pair's outcome.
pub proof fn lemma_complete(r: Runner)
    requires
        r.wf(),
        r.is_done(),
    ensures
        r.matrix().complete(),
        forall|a: int, p: Probe|
            0 <= a < r.matrix().adapter_count() ==> #[trigger] r.matrix().cell(a, p) == Some(
                classify_spec(p, r.outcomes()[(a, probe_index(p))]),
            ),
{
    assert forall|a: int, i: int|
        0 <= a < r.matrix().adapter_count() && 0 <= i < NUM_PROBES implies #[trigger] r.matrix().cell_at(
        a,
        i,
    ) is Some by {
        assert(r.cell_ok(a, i));
    }
    assert forall|a: int, p: Probe| 0 <= a < r.matrix().adapter_count() implies #[trigger] r.matrix().cell(
        a,
        p,
    ) == Some(classify_spec(p, r.outcomes()[(a, probe_index(p))])) by {
        crate::catalog::lemma_at_index(p);
        assert(r.cell_ok(a, probe_index(p)));
    }
}

/// A pair's verdict depends on that pair's scenario alone: two finished
/// runs over the same adapters whose scenarios gave the same outcomes
/// everywhere but at one pair (say, one that crashed in one run) have the
/// same verdicts everywhere but at that pair.
pub proof fn lemma_fault_isolation(r1: Runner, r2: Runner, a0: int, p0: Probe)
    requires
        r1.wf(),
        r1.is_done(),
        r2.wf(),
        r2.is_done(),
        r1.matrix().names() == r2.matrix().names(),
        forall|a: int, p: Probe|
            0 <= a < r1.matrix().adapter_count() && (a, p) != (a0, p0) ==> r1.outcomes()[(
                a,
                probe_index(p),
            )] == r2.outcomes()[(a, probe_index(p))],
    ensures
        forall|a: int, p: Probe|
            0 <= a < r1.matrix().adapter_count() && (a, p) != (a0, p0) ==> #[trigger] r1.matrix().cell(
                a,
                p,
            ) == r2.matrix().cell(a, p),
{
    lemma_complete(r1);
    lemma_complete(r2);
    assert forall|a: int, p: Probe|
        0 <= a < r1.matrix().adapter_count() && (a, p) != (a0, p0) implies #[trigger] r1.matrix().cell(
        a,
        p,
    ) == r2.matrix().cell(a, p) by {
        assert(r1.matrix().cell(a, p) == Some(
            classify_spec(p, r1.outcomes()[(a, probe_index(p))]),
        ));
        assert(r2.matrix().cell(a, p) == Some(
            classify_spec(p, r2.outcomes()[(a, probe_index(p))]),
        ));
    }
}

/// Running the matrix twice against adapters whose scenarios behave the
/// same gives the same verdicts.
pub proof fn lemma_deterministic(r1: Runner, r2: Runner)
    requires
        r1.wf(),
        r1.is_done(),
        r2.wf(),
        r2.is_done(),
        r1.matrix().names() == r2.matrix().names(),
        forall|a: int, p: Probe|
            0 <= a < r1.matrix().adapter_count() ==> r1.outcomes()[(a, probe_index(p))]
                == r2.outcomes()[(a, probe_index(p))],
    ensures
        forall|a: int, p: Probe|
            0 <= a < r1.matrix().adapter_count() ==> #[trigger] r1.matrix().cell(a, p)
                == r2.matrix().cell(a, p),
{
    lemma_complete(r1);
    lemma_complete(r2);
}

} // verus!
