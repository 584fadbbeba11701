//! The scanners: each turns the output of its probe into findings, line by
//! line, and a scan drives the probe and reads what it wrote.
pub mod apf;
pub mod cvtwalk;
pub mod datasets;
pub mod jes;
pub mod marked;
pub mod racf;
pub mod scan;
pub mod smf;
pub mod stc;
pub mod unix;

use vstd::prelude::*;
use crate::types::FindingView;

verus! {

/// The findings that `rule` gives for each line, in the order of the lines.
pub open spec fn collect_findings(
    ls: Seq<Seq<char>>,
    rule: spec_fn(Seq<char>) -> Option<FindingView>,
) -> Seq<FindingView>
    decreases ls.len(),
{
    if ls.len() == 0 {
        seq![]
    } else {
        let prev = collect_findings(ls.drop_last(), rule);
        match rule(ls.last()) {
            Some(f) => prev.push(f),
            None => prev,
        }
    }
}

/// Collecting over two runs of lines collects over each in turn.
pub proof fn lemma_collect_append(
    a: Seq<Seq<char>>,
    b: Seq<Seq<char>>,
    rule: spec_fn(Seq<char>) -> Option<FindingView>,
)
    ensures
        collect_findings(a + b, rule) == collect_findings(a, rule) + collect_findings(b, rule),
    decreases b.len(),
{
    if b.len() == 0 {
        assert(a + b =~= a);
        assert(collect_findings(a, rule) + collect_findings(b, rule) =~= collect_findings(a, rule));
    } else {
        assert((a + b).drop_last() =~= a + b.drop_last());
        assert((a + b).last() == b.last());
        lemma_collect_append(a, b.drop_last(), rule);
        match rule(b.last()) {
            Some(f) => {
                assert(collect_findings(a + b, rule) =~= collect_findings(a, rule) + collect_findings(b, rule));
            },
            None => {},
        }
    }
}

/// No run of lines gives more findings than it has lines, and each finding
/// comes from one of the lines.
pub proof fn lemma_collect_from_lines(
    ls: Seq<Seq<char>>,
    rule: spec_fn(Seq<char>) -> Option<FindingView>,
)
    ensures
        collect_findings(ls, rule).len() <= ls.len(),
        forall|i: int|
            #![trigger collect_findings(ls, rule)[i]]
            0 <= i < collect_findings(ls, rule).len() ==> exists|j: int|
                #![trigger ls[j]]
                0 <= j < ls.len() && rule(ls[j]) == Some(collect_findings(ls, rule)[i]),
    decreases ls.len(),
{
    if ls.len() > 0 {
        let prev = ls.drop_last();
        lemma_collect_from_lines(prev, rule);
        let c = collect_findings(ls, rule);
        assert forall|i: int| #![trigger c[i]] 0 <= i < c.len() implies exists|j: int|
            #![trigger ls[j]]
            0 <= j < ls.len() && rule(ls[j]) == Some(c[i]) by {
            if i < collect_findings(prev, rule).len() {
                let j = choose|j: int| #![trigger prev[j]] 0 <= j < prev.len() && rule(prev[j]) == Some(collect_findings(prev, rule)[i]);
                assert(ls[j] == prev[j]);
            } else {
                assert(rule(ls[ls.len() - 1]) == Some(c[i]));
            }
        }
    }
}

/// A line for which the rule gives a finding contributes that finding.
pub proof fn lemma_collect_contains(
    ls: Seq<Seq<char>>,
    rule: spec_fn(Seq<char>) -> Option<FindingView>,
    j: int,
)
    requires
        0 <= j < ls.len(),
        rule(ls[j]) is Some,
    ensures
        collect_findings(ls, rule).contains(rule(ls[j])->0),
    decreases ls.len(),
{
    let prev = ls.drop_last();
    let pc = collect_findings(prev, rule);
    if j < ls.len() - 1 {
        assert(prev[j] == ls[j]);
        lemma_collect_contains(prev, rule, j);
        let k = choose|k: int| 0 <= k < pc.len() && pc[k] == rule(ls[j])->0;
        match rule(ls.last()) {
            Some(f) => {
                assert(pc.push(f)[k] == pc[k]);
            },
            None => {},
        }
    } else {
        let f = rule(ls.last())->0;
        assert(pc.push(f)[pc.len() as int] == f);
    }
}

} // verus!
