//! The report: the matrix as lines of text, one row per probe in catalog
//! order, grouped by tier under a heading, one column per adapter.

use crate::catalog::{
    probe_at, probe_name, tier_of, Probe, Tier, FIRST_CONVENIENCE, FIRST_QUANTITATIVE, NUM_PROBES,
};
use crate::matrix::Matrix;
use crate::verdict::Verdict;
use vstd::prelude::*;

verus! {

/// Separator between the cells of a line.
pub open spec fn sep() -> Seq<char> {
    " | "@
}

/// The text of one cell: a symbol for each verdict, the measured degree
/// verbatim for a quantitative one.
pub open spec fn cell_text(c: Option<Verdict>) -> Seq<char> {
    match c {
        Some(Verdict::Supported) => "yes"@,
        Some(Verdict::ExplicitlyUnsupported) => "no"@,
        Some(Verdict::Crashed) => "CRASH"@,
        Some(Verdict::Quantitative(v)) => v@,
        None => "-"@,
    }
}

/// The heading line of a tier.
pub open spec fn tier_heading(t: Tier) -> Seq<char> {
    match t {
        Tier::Core => "[core]"@,
        Tier::Convenience => "[convenience]"@,
        Tier::Quantitative => "[quantitative]"@,
    }
}

/// Whether the probe at catalog position `i` is the first of its tier.
pub open spec fn starts_tier(i: int) -> bool {
    i == 0 || i == FIRST_CONVENIENCE || i == FIRST_QUANTITATIVE
}

/// The cells of the first `n` adapters for the probe at catalog position `i`.
pub open spec fn row_cells(m: Matrix, i: int, n: int) -> Seq<char>
    decreases n,
{
    if n <= 0 {
        Seq::empty()
    } else {
        row_cells(m, i, n - 1) + sep() + cell_text(m.cell_at(n - 1, i))
    }
}

/// The line of the probe at catalog position `i`.
pub open spec fn row_text(m: Matrix, i: int) -> Seq<char> {
    probe_name(probe_at(i)) + row_cells(m, i, m.adapter_count())
}

/// The names of the first `n` adapters, as header cells.
pub open spec fn header_cells(names: Seq<Seq<char>>, n: int) -> Seq<char>
    decreases n,
{
    if n <= 0 {
        Seq::empty()
    } else {
        header_cells(names, n - 1) + sep() + names[n - 1]
    }
}

/// The header line.
pub open spec fn header(m: Matrix) -> Seq<char> {
    "probe"@ + header_cells(m.names(), m.adapter_count())
}

/// The lines of the first `k` probes of the catalog, each tier's first
/// one preceded by the tier's heading.
pub open spec fn body_lines(m: Matrix, k: int) -> Seq<Seq<char>>
    decreases k,
{
    if k <= 0 {
        Seq::empty()
    } else {
        let before = body_lines(m, k - 1);
        let headed = if starts_tier(k - 1) {
            before.push(tier_heading(tier_of(probe_at(k - 1))))
        } else {
            before
        };
        headed.push(row_text(m, k - 1))
    }
}

/// The whole report.
pub open spec fn report_lines(m: Matrix) -> Seq<Seq<char>> {
    seq![header(m)] + body_lines(m, NUM_PROBES as int)
}

fn cell_text_of(c: &Option<Verdict>) -> (r: String)
    ensures
        r@ == cell_text(*c),
{
    match c {
        Some(Verdict::Supported) => String::from_str("yes"),
        Some(Verdict::ExplicitlyUnsupported) => String::from_str("no"),
        Some(Verdict::Crashed) => String::from_str("CRASH"),
        Some(Verdict::Quantitative(v)) => v.clone(),
        None => String::from_str("-"),
    }
}

fn tier_heading_of(t: Tier) -> (r: String)
    ensures
        r@ == tier_heading(t),
{
    match t {
        Tier::Core => String::from_str("[core]"),
        Tier::Convenience => String::from_str("[convenience]"),
        Tier::Quantitative => String::from_str("[quantitative]"),
    }
}

/// The header line of the report.
pub fn header_line(m: &Matrix) -> (r: String)
    ensures
        r@ == header(*m),
{
    let n = m.num_adapters();
    let mut line = String::from_str("probe");
    let mut a: usize = 0;
    while a < n
        invariant
            n == m.adapter_count(),
            a <= n,
            line@ == "probe"@ + header_cells(m.names(), a as int),
        decreases n - a,
    {
        line.append(" | ");
        line.append(m.adapter_name(a).as_str());
        proof {
            assert(header_cells(m.names(), a + 1) == header_cells(m.names(), a as int) + sep()
                + m.names()[a as int]);
        }
        a += 1;
    }
    line
}

/// The line of probe `p`.
pub fn row_line(m: &Matrix, p: Probe) -> (r: String)
    requires
        m.wf(),
    ensures
        r@ == row_text(*m, crate::catalog::probe_index(p)),
{
    proof {
        crate::catalog::lemma_at_index(p);
    }
    let n = m.num_adapters();
    let mut line = String::from_str(p.name());
    let mut a: usize = 0;
    while a < n
        invariant
            m.wf(),
            n == m.adapter_count(),
            a <= n,
            probe_at(crate::catalog::probe_index(p)) == p,
            line@ == probe_name(p) + row_cells(*m, crate::catalog::probe_index(p), a as int),
        decreases n - a,
    {
        line.append(" | ");
        let c = cell_text_of(m.verdict(a, p));
        line.append(c.as_str());
        a += 1;
    }
    line
}

/// Renders the matrix as lines of text: the header, then each probe's
/// line in catalog order, each tier introduced by its heading.
pub fn render(m: &Matrix) -> (r: Vec<String>)
    requires
        m.wf(),
    ensures
        r@.map_values(|s: String| s@) == report_lines(*m),
{
    let mut lines: Vec<String> = Vec::new();
    lines.push(header_line(m));
    let mut i: usize = 0;
    assert(lines@.map_values(|s: String| s@) =~= seq![header(*m)] + body_lines(*m, 0));
    while i < NUM_PROBES
        invariant
            m.wf(),
            i <= NUM_PROBES,
            lines@.map_values(|s: String| s@) == seq![header(*m)] + body_lines(*m, i as int),
        decreases NUM_PROBES - i,
    {
        let p = Probe::from_index(i);
        proof {
            crate::catalog::lemma_index_at(i as int);
        }
        let ghost before = lines@.map_values(|s: String| s@);
        if i == 0 || i == FIRST_CONVENIENCE || i == FIRST_QUANTITATIVE {
            lines.push(tier_heading_of(p.tier()));
        }
        let ghost headed = lines@.map_values(|s: String| s@);
        assert(headed =~= if starts_tier(i as int) {
            before.push(tier_heading(tier_of(probe_at(i as int))))
        } else {
            before
        });
        lines.push(row_line(m, p));
        assert(lines@.map_values(|s: String| s@) =~= headed.push(row_text(*m, i as int)));
        assert(seq![header(*m)] + body_lines(*m, i + 1) =~= (if starts_tier(i as int) {
            (seq![header(*m)] + body_lines(*m, i as int)).push(
                tier_heading(tier_of(probe_at(i as int))),
            )
        } else {
            seq![header(*m)] + body_lines(*m, i as int)
        }).push(row_text(*m, i as int)));
        i += 1;
    }
    lines
}

} // verus!
