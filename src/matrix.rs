//! The matrix of verdicts: one cell per (adapter, probe) pair, each filled
//! at most once.

use crate::catalog::{probe_index, Probe, NUM_PROBES};
use crate::verdict::Verdict;
use vstd::prelude::*;

verus! {

/// A second attempt to fill a cell that already holds a verdict.
#[derive(Clone, Copy, Debug, PartialEq, Eq, Structural)]
pub struct AlreadyRecorded;

/// Position of the cell of adapter `a` and catalog position `i`.
pub open spec fn cell_pos(a: int, i: int) -> int {
    a * NUM_PROBES + i
}

/// The verdicts of one run, by adapter (in the order of registration) and
/// probe (in catalog order).
pub struct Matrix {
    names: Vec<String>,
    cells: Vec<Option<Verdict>>,
}

impl Matrix {
    /// The adapters' names.
    pub closed spec fn names(&self) -> Seq<Seq<char>> {
        self.names@.map_values(|s: String| s@)
    }

    /// The cells, adapter after adapter, each adapter's in catalog order.
    pub closed spec fn cells(&self) -> Seq<Option<Verdict>> {
        self.cells@
    }

    pub open spec fn adapter_count(&self) -> int {
        self.names().len() as int
    }

    pub open spec fn wf(&self) -> bool {
        &&& self.cells().len() == self.adapter_count() * NUM_PROBES
        &&& self.cells().len() <= usize::MAX
    }

    /// The verdict of adapter `a` on the probe at catalog position `i`.
    pub open spec fn cell_at(&self, a: int, i: int) -> Option<Verdict> {
        self.cells()[cell_pos(a, i)]
    }

    /// The verdict of adapter `a` on probe `p`.
    pub open spec fn cell(&self, a: int, p: Probe) -> Option<Verdict> {
        self.cell_at(a, probe_index(p))
    }

    /// Every cell holds a verdict.
    pub open spec fn complete(&self) -> bool {
        forall|a: int, i: int|
            0 <= a < self.adapter_count() && 0 <= i < NUM_PROBES ==> #[trigger] self.cell_at(a, i)
                is Some
    }

    /// An empty matrix for the adapters of the given names.
    pub fn new(names: Vec<String>) -> (r: Matrix)
        requires
            names@.len() * NUM_PROBES <= usize::MAX,
        ensures
            r.wf(),
            r.names() == names@.map_values(|s: String| s@),
            forall|k: int| 0 <= k < r.cells().len() ==> #[trigger] r.cells()[k] is None,
    {
        let total = names.len() * NUM_PROBES;
        let mut cells: Vec<Option<Verdict>> = Vec::new();
        let mut k: usize = 0;
        while k < total
            invariant
                k <= total,
                cells@.len() == k,
                forall|j: int| 0 <= j < k ==> #[trigger] cells@[j] is None,
            decreases total - k,
        {
            cells.push(None);
            k += 1;
        }
        Matrix { names, cells }
    }

    pub fn num_adapters(&self) -> (r: usize)
        ensures
            r == self.adapter_count(),
    {
        self.names.len()
    }

    pub fn adapter_name(&self, a: usize) -> (r: &String)
        requires
            a < self.adapter_count(),
        ensures
            r@ == self.names()[a as int],
    {
        &self.names[a]
    }

    /// Each cell of a well-formed matrix has its position.
    pub proof fn lemma_pos(&self, a: int, i: int)
        requires
            self.wf(),
            0 <= a < self.adapter_count(),
            0 <= i < NUM_PROBES,
        ensures
            0 <= cell_pos(a, i) < self.cells().len(),
    {
    }

    /// The verdict of adapter `a` on probe `p`, if it has been recorded.
    pub fn verdict(&self, a: usize, p: Probe) -> (r: &Option<Verdict>)
        requires
            self.wf(),
            a < self.adapter_count(),
        ensures
            *r == self.cell(a as int, p),
    {
        proof {
            crate::catalog::lemma_at_index(p);
            self.lemma_pos(a as int, probe_index(p));
        }
        &self.cells[a * NUM_PROBES + p.index()]
    }

    /// Records the verdict of adapter `a` on probe `p`; a cell that already
    /// holds one is left as it is.
    pub fn record(&mut self, a: usize, p: Probe, v: Verdict) -> (r: Result<(), AlreadyRecorded>)
        requires
            old(self).wf(),
            a < old(self).adapter_count(),
        ensures
            final(self).wf(),
            final(self).names() == old(self).names(),
            old(self).cell(a as int, p) is Some ==> r == Err::<(), AlreadyRecorded>(AlreadyRecorded)
                && final(self).cells() == old(self).cells(),
            old(self).cell(a as int, p) is None ==> r == Ok::<(), AlreadyRecorded>(())
                && final(self).cells() == old(self).cells().update(
                cell_pos(a as int, probe_index(p)),
                Some(v),
            ),
    {
        proof {
            crate::catalog::lemma_at_index(p);
            self.lemma_pos(a as int, probe_index(p));
        }
        let k = a * NUM_PROBES + p.index();
        if self.cells[k].is_some() {
            return Err(AlreadyRecorded);
        }
        self.cells.set(k, Some(v));
        Ok(())
    }

    /// Whether every cell holds a verdict.
    pub fn is_complete(&self) -> (r: bool)
        requires
            self.wf(),
        ensures
            r == self.complete(),
    {
        let n = self.names.len();
        let mut a: usize = 0;
        while a < n
            invariant
                self.wf(),
                n == self.adapter_count(),
                a <= n,
                forall|b: int, i: int|
                    0 <= b < a && 0 <= i < NUM_PROBES ==> #[trigger] self.cell_at(b, i) is Some,
            decreases n - a,
        {
            let mut i: usize = 0;
            while i < NUM_PROBES
                invariant
                    self.wf(),
                    n == self.adapter_count(),
                        a < n,
                    i <= NUM_PROBES,
                    forall|b: int, j: int|
                        0 <= b < a && 0 <= j < NUM_PROBES ==> #[trigger] self.cell_at(b, j) is Some,
                    forall|j: int| 0 <= j < i ==> #[trigger] self.cell_at(a as int, j) is Some,
                decreases NUM_PROBES - i,
            {
                proof {
                    self.lemma_pos(a as int, i as int);
                }
                if self.cells[a * NUM_PROBES + i].is_none() {
                    assert(self.cell_at(a as int, i as int) is None);
                    return false;
                }
                i += 1;
            }
            a += 1;
        }
        true
    }
}

} // verus!
