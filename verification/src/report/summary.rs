//! The summaries that the HTML and PDF reports show: how many findings there
//! are of each severity, and which compliance identifiers they touch.
use vstd::prelude::*;
use crate::text::str_chars;
use crate::types::{findings_view, severity_name, strings_view, FindingView, Findings, Severity};

verus! {

/// How many findings have the severity.
pub open spec fn count_severity(fs: Seq<FindingView>, s: Severity) -> nat
    decreases fs.len(),
{
    if fs.len() == 0 {
        0
    } else {
        count_severity(fs.drop_last(), s) + if fs.last().severity == s {
            1nat
        } else {
            0nat
        }
    }
}

/// The severities from least to most serious.
pub open spec fn severity_order() -> Seq<Severity> {
    seq![Severity::Info, Severity::Low, Severity::Medium, Severity::High, Severity::Critical]
}

/// The severities in the order of their names: Critical, High, Info, Low, Medium.
pub open spec fn severity_name_order() -> Seq<Severity> {
    seq![Severity::Critical, Severity::High, Severity::Info, Severity::Low, Severity::Medium]
}

/// Each severity of `order` that some finding has, with its count, in the
/// order given.
pub open spec fn present_counts(fs: Seq<FindingView>, order: Seq<Severity>) -> Seq<(Severity, nat)>
    decreases order.len(),
{
    if order.len() == 0 {
        seq![]
    } else {
        let prev = present_counts(fs, order.drop_last());
        let c = count_severity(fs, order.last());
        if c > 0 {
            prev.push((order.last(), c))
        } else {
            prev
        }
    }
}

/// The number of findings of one severity.
#[derive(Debug, Clone, Copy, PartialEq, Eq, Structural)]
pub struct SeveritySummary {
    pub severity: Severity,
    pub count: usize,
}

/// The summaries as pairs.
pub open spec fn summaries_view(v: Seq<SeveritySummary>) -> Seq<(Severity, nat)> {
    v.map_values(|s: SeveritySummary| (s.severity, s.count as nat))
}

/// How many of the findings have the severity.
pub fn count_of(findings: &[Findings], s: Severity) -> (r: usize)
    ensures
        r == count_severity(findings_view(findings@), s),
{
    let ghost fs = findings_view(findings@);
    let n = findings.len();
    let mut c: usize = 0;
    let mut i: usize = 0;
    while i < n
        invariant
            n == findings@.len(),
            fs == findings_view(findings@),
            i <= n,
            c == count_severity(fs.take(i as int), s),
            c <= i,
        decreases n - i,
    {
        assert(fs.take(i + 1).drop_last() =~= fs.take(i as int));
        assert(fs.take(i + 1).last() == findings@[i as int]@);
        if findings[i].severity == s {
            c = c + 1;
        }
        i = i + 1;
    }
    assert(fs.take(n as int) =~= fs);
    c
}

/// The number of findings of each severity that occurs, from `Info` to
/// `Critical`.
pub fn severity_counts(findings: &[Findings]) -> (r: Vec<SeveritySummary>)
    ensures
        summaries_view(r@) == present_counts(findings_view(findings@), severity_order()),
{
    let order = [Severity::Info, Severity::Low, Severity::Medium, Severity::High, Severity::Critical];
    let ghost spec_order = severity_order();
    assert(order@ =~= spec_order);
    let mut out: Vec<SeveritySummary> = Vec::new();
    for k in 0..5
        invariant
            order@ == spec_order,
            summaries_view(out@) == present_counts(findings_view(findings@), spec_order.take(k as int)),
    {
        let s = order[k];
        let c = count_of(findings, s);
        assert(spec_order.take(k + 1).drop_last() =~= spec_order.take(k as int));
        if c > 0 {
            out.push(SeveritySummary { severity: s, count: c });
        }
        assert(summaries_view(out@) =~= present_counts(findings_view(findings@), spec_order.take(k + 1)));
    }
    assert(spec_order.take(5) =~= spec_order);
    out
}

/// Each severity of `order` that some finding has, by name, with its count.
pub open spec fn present_named_counts(fs: Seq<FindingView>, order: Seq<Severity>) -> Seq<(Seq<char>, nat)>
    decreases order.len(),
{
    if order.len() == 0 {
        seq![]
    } else {
        let prev = present_named_counts(fs, order.drop_last());
        let c = count_severity(fs, order.last());
        if c > 0 {
            prev.push((severity_name(order.last()), c))
        } else {
            prev
        }
    }
}

/// The pairs of names and counts as character sequences.
pub open spec fn named_counts_view(v: Seq<(String, usize)>) -> Seq<(Seq<char>, nat)> {
    v.map_values(|p: (String, usize)| (p.0@, p.1 as nat))
}

/// The number of findings of each severity that occurs, keyed by the
/// severity's name and in the order of the names.
pub fn severity_counts_by_name(findings: &[Findings]) -> (r: Vec<(String, usize)>)
    ensures
        named_counts_view(r@) == present_named_counts(findings_view(findings@), severity_name_order()),
{
    let order = [Severity::Critical, Severity::High, Severity::Info, Severity::Low, Severity::Medium];
    let ghost spec_order = severity_name_order();
    assert(order@ =~= spec_order);
    let mut out: Vec<(String, usize)> = Vec::new();
    for k in 0..5
        invariant
            order@ == spec_order,
            named_counts_view(out@) == present_named_counts(findings_view(findings@), spec_order.take(k as int)),
    {
        let s = order[k];
        let c = count_of(findings, s);
        assert(spec_order.take(k + 1).drop_last() =~= spec_order.take(k as int));
        if c > 0 {
            out.push((s.to_string(), c));
        }
        assert(named_counts_view(out@) =~= present_named_counts(findings_view(findings@), spec_order.take(k + 1)));
    }
    assert(spec_order.take(5) =~= spec_order);
    out
}

/// Strict lexicographic order on characters, which is the order of strings.
pub open spec fn lex_lt(a: Seq<char>, b: Seq<char>) -> bool
    decreases a.len(),
{
    if a.len() == 0 {
        b.len() > 0
    } else if b.len() == 0 {
        false
    } else if a[0] != b[0] {
        a[0] < b[0]
    } else {
        lex_lt(a.drop_first(), b.drop_first())
    }
}

pub proof fn lemma_lex_irreflexive(a: Seq<char>)
    ensures
        !lex_lt(a, a),
    decreases a.len(),
{
    if a.len() > 0 {
        lemma_lex_irreflexive(a.drop_first());
    }
}

pub proof fn lemma_lex_total(a: Seq<char>, b: Seq<char>)
    ensures
        lex_lt(a, b) || a == b || lex_lt(b, a),
    decreases a.len(),
{
    if a.len() == 0 {
        if b.len() == 0 {
            assert(a =~= b);
        }
    } else if b.len() > 0 {
        if a[0] == b[0] {
            lemma_lex_total(a.drop_first(), b.drop_first());
            if a.drop_first() == b.drop_first() {
                assert(a.drop_first().len() == a.len() - 1);
                assert(b.drop_first().len() == b.len() - 1);
                assert(a.len() == b.len());
                assert forall|i: int| 0 <= i < a.len() implies a[i] == b[i] by {
                    if i > 0 {
                        assert(a[i] == a.drop_first()[i - 1]);
                        assert(b[i] == b.drop_first()[i - 1]);
                    }
                }
                assert(a =~= b);
            }
        }
    }
}

pub proof fn lemma_lex_asymmetric(a: Seq<char>, b: Seq<char>)
    ensures
        lex_lt(a, b) ==> !lex_lt(b, a),
    decreases a.len(),
{
    if a.len() > 0 && b.len() > 0 && a[0] == b[0] {
        lemma_lex_asymmetric(a.drop_first(), b.drop_first());
    }
}

pub proof fn lemma_lex_transitive(a: Seq<char>, b: Seq<char>, c: Seq<char>)
    requires
        lex_lt(a, b),
        lex_lt(b, c),
    ensures
        lex_lt(a, c),
    decreases a.len(),
{
    if a.len() > 0 && b.len() > 0 && c.len() > 0 {
        if a[0] == b[0] && b[0] == c[0] {
            lemma_lex_transitive(a.drop_first(), b.drop_first(), c.drop_first());
        }
    }
}

/// Strings in strictly increasing order, hence without repetition.
pub open spec fn strictly_sorted(v: Seq<Seq<char>>) -> bool {
    forall|i: int, j: int| 0 <= i < j < v.len() ==> lex_lt(#[trigger] v[i], #[trigger] v[j])
}

/// Whether `a` comes before `b` in the order of strings.
pub fn str_less(a: &str, b: &str) -> (r: bool)
    ensures
        r == lex_lt(a@, b@),
{
    let x = str_chars(a);
    let y = str_chars(b);
    let mut i: usize = 0;
    assert(x@.skip(0) =~= x@);
    assert(y@.skip(0) =~= y@);
    loop
        invariant
            i <= x@.len(),
            i <= y@.len(),
            x@ == a@,
            y@ == b@,
            lex_lt(a@, b@) == lex_lt(x@.skip(i as int), y@.skip(i as int)),
        decreases x@.len() - i,
    {
        if i == x.len() || i == y.len() {
            return i < y.len();
        }
        assert(x@.skip(i as int)[0] == x@[i as int]);
        assert(y@.skip(i as int)[0] == y@[i as int]);
        if x[i] != y[i] {
            return x[i] < y[i];
        }
        assert(x@.skip(i as int).drop_first() =~= x@.skip(i + 1));
        assert(y@.skip(i as int).drop_first() =~= y@.skip(i + 1));
        i = i + 1;
    }
}

/// Insert `x` into a strictly sorted list of strings unless it is there.
pub fn insert_sorted(v: &mut Vec<String>, x: String)
    requires
        strictly_sorted(strings_view(old(v)@)),
    ensures
        strictly_sorted(strings_view(final(v)@)),
        strings_view(final(v)@).to_set() == strings_view(old(v)@).to_set().insert(x@),
{
    let ghost old_v = strings_view(v@);
    let n = v.len();
    let mut p: usize = 0;
    loop
        invariant
            n == v@.len(),
            old_v == strings_view(v@),
            p <= n,
            forall|j: int| 0 <= j < p ==> lex_lt(#[trigger] old_v[j], x@),
        ensures
            p <= n,
            forall|j: int| 0 <= j < p ==> lex_lt(#[trigger] old_v[j], x@),
            p < n ==> !lex_lt(old_v[p as int], x@),
        decreases n - p,
    {
        if p == n {
            break;
        }
        if !str_less(v[p].as_str(), x.as_str()) {
            break;
        }
        p = p + 1;
    }
    if p < n && v[p] == x {
        assert(old_v.to_set().insert(x@) =~= old_v.to_set()) by {
            assert(old_v[p as int] == x@);
        }
        return;
    }
    proof {
        if p < n {
            lemma_lex_total(old_v[p as int], x@);
        }
    }
    let ghost xv = x@;
    v.insert(p, x);
    let ghost new_v = strings_view(v@);
    proof {
        assert(new_v =~= old_v.insert(p as int, xv));
        assert forall|i: int, j: int| 0 <= i < j < new_v.len() implies lex_lt(
            #[trigger] new_v[i],
            #[trigger] new_v[j],
        ) by {
            if j < p {
            } else if j == p {
            } else if i < p {
                if j - 1 > p {
                    lemma_lex_transitive(xv, old_v[p as int], old_v[j - 1]);
                }
                lemma_lex_transitive(old_v[i], xv, old_v[j - 1]);
            } else if i == p {
                if j - 1 > p {
                    lemma_lex_transitive(xv, old_v[p as int], old_v[j - 1]);
                }
            } else {
                assert(new_v[i] == old_v[i - 1]);
                assert(new_v[j] == old_v[j - 1]);
            }
        }
        assert(new_v.to_set() =~= old_v.to_set().insert(xv)) by {
            assert forall|s: Seq<char>| new_v.to_set().contains(s) implies old_v.to_set().insert(xv).contains(s) by {
                let k = choose|k: int| 0 <= k < new_v.len() && new_v[k] == s;
                if k < p {
                    assert(old_v[k] == s);
                } else if k > p {
                    assert(old_v[k - 1] == s);
                }
            }
            assert forall|s: Seq<char>| old_v.to_set().insert(xv).contains(s) implies new_v.to_set().contains(s) by {
                if s == xv {
                    assert(new_v[p as int] == xv);
                } else {
                    let k = choose|k: int| 0 <= k < old_v.len() && old_v[k] == s;
                    if k < p {
                        assert(new_v[k] == s);
                    } else {
                        assert(new_v[k + 1] == s);
                    }
                }
            }
        }
    }
}

/// The compliance identifiers of the first findings.
pub open spec fn ids_of(fs: Seq<FindingView>) -> Set<Seq<char>>
    decreases fs.len(),
{
    if fs.len() == 0 {
        Set::empty()
    } else {
        ids_of(fs.drop_last()).union(
            match fs.last().compliance {
                Some(ids) => ids.to_set(),
                None => Set::empty(),
            },
        )
    }
}

/// Every compliance identifier that some finding carries, once each, in the
/// order of strings.
pub fn compliance_ids(findings: &[Findings]) -> (r: Vec<String>)
    ensures
        strictly_sorted(strings_view(r@)),
        strings_view(r@).to_set() == ids_of(findings_view(findings@)),
{
    let ghost fs = findings_view(findings@);
    let mut out: Vec<String> = Vec::new();
    let n = findings.len();
    let mut i: usize = 0;
    assert(strings_view(out@).to_set() =~= Set::<Seq<char>>::empty());
    assert(fs.take(0) =~= Seq::<FindingView>::empty());
    while i < n
        invariant
            n == findings@.len(),
            fs == findings_view(findings@),
            i <= n,
            strictly_sorted(strings_view(out@)),
            strings_view(out@).to_set() == ids_of(fs.take(i as int)),
        decreases n - i,
    {
        assert(fs.take(i + 1).drop_last() =~= fs.take(i as int));
        assert(fs.take(i + 1).last() == findings@[i as int]@);
        match &findings[i].compliance {
            Some(ids) => {
                let ghost base = strings_view(out@).to_set();
                let ghost idv = strings_view(ids@);
                let m = ids.len();
                let mut k: usize = 0;
                assert(idv.take(0).to_set() =~= Set::<Seq<char>>::empty());
                while k < m
                    invariant
                        m == ids@.len(),
                        idv == strings_view(ids@),
                        k <= m,
                        strictly_sorted(strings_view(out@)),
                        strings_view(out@).to_set() == base.union(idv.take(k as int).to_set()),
                    decreases m - k,
                {
                    let id = ids[k].clone();
                    insert_sorted(&mut out, id);
                    assert(idv.take(k + 1) =~= idv.take(k as int).push(idv[k as int]));
                    proof {
                        idv.take(k as int).lemma_push_to_set_commute(idv[k as int]);
                    }
                    assert(idv.take(k + 1).to_set() =~= idv.take(k as int).to_set().insert(idv[k as int]));
                    assert(strings_view(out@).to_set() =~= base.union(idv.take(k + 1).to_set()));
                    k = k + 1;
                }
                assert(idv.take(m as int) =~= idv);
            },
            None => {
                assert(ids_of(fs.take(i + 1)) =~= ids_of(fs.take(i as int)));
            },
        }
        i = i + 1;
    }
    assert(fs.take(n as int) =~= fs);
    out
}

/// A copy of a finding.
pub fn copy_finding(f: &Findings) -> (r: Findings)
    ensures
        r@ == f@,
{
    let compliance = match &f.compliance {
        Some(ids) => {
            let c = ids.clone();
            assert(strings_view(c@) =~= strings_view(ids@));
            Some(c)
        },
        None => None,
    };
    Findings {
        id: f.id.clone(),
        title: f.title.clone(),
        severity: f.severity,
        affected_resource: f.affected_resource.clone(),
        remediation: f.remediation.clone(),
        compliance,
    }
}

/// A finding with its compliance identifiers listed, empty where it has none.
pub open spec fn listed(f: FindingView) -> FindingView {
    FindingView {
        compliance: match f.compliance {
            Some(ids) => Some(ids),
            None => Some(seq![]),
        },
        ..f
    }
}

/// The findings as the HTML report lists them: each with its compliance
/// identifiers, empty where it has none.
pub fn listed_findings(findings: &[Findings]) -> (r: Vec<Findings>)
    ensures
        findings_view(r@) == findings_view(findings@).map_values(|f: FindingView| listed(f)),
{
    let mut out: Vec<Findings> = Vec::new();
    let n = findings.len();
    let mut i: usize = 0;
    while i < n
        invariant
            n == findings@.len(),
            i <= n,
            out@.len() == i,
            forall|k: int| 0 <= k < i ==> #[trigger] out@[k]@ == listed(findings@[k]@),
        decreases n - i,
    {
        let mut g = copy_finding(&findings[i]);
        if g.compliance.is_none() {
            g.compliance = Some(Vec::new());
            assert(strings_view(Seq::<String>::empty()) =~= Seq::<Seq<char>>::empty());
        }
        out.push(g);
        i = i + 1;
    }
    assert(findings_view(out@) =~= findings_view(findings@).map_values(|f: FindingView| listed(f)));
    out
}

/// The sum of the counts.
pub open spec fn total_count(counts: Seq<(Severity, nat)>) -> nat
    decreases counts.len(),
{
    if counts.len() == 0 {
        0
    } else {
        total_count(counts.drop_last()) + counts.last().1
    }
}

proof fn lemma_counts_cover(fs: Seq<FindingView>)
    ensures
        count_severity(fs, Severity::Info) + count_severity(fs, Severity::Low) + count_severity(fs, Severity::Medium)
            + count_severity(fs, Severity::High) + count_severity(fs, Severity::Critical) == fs.len(),
    decreases fs.len(),
{
    if fs.len() > 0 {
        lemma_counts_cover(fs.drop_last());
    }
}

proof fn lemma_total_present(fs: Seq<FindingView>, order: Seq<Severity>)
    ensures
        total_count(present_counts(fs, order)) == sum_counts(fs, order),
    decreases order.len(),
{
    if order.len() > 0 {
        lemma_total_present(fs, order.drop_last());
        let prev = present_counts(fs, order.drop_last());
        if count_severity(fs, order.last()) > 0 {
            assert(prev.push((order.last(), count_severity(fs, order.last()))).drop_last() =~= prev);
        }
    }
}

/// The sum of the counts of the severities in `order`.
pub open spec fn sum_counts(fs: Seq<FindingView>, order: Seq<Severity>) -> nat
    decreases order.len(),
{
    if order.len() == 0 {
        0
    } else {
        sum_counts(fs, order.drop_last()) + count_severity(fs, order.last())
    }
}

/// The severity breakdown accounts for every finding: its counts add up to the
/// number of findings, in either order.
pub proof fn law_severity_counts_add_up(fs: Seq<FindingView>)
    ensures
        total_count(present_counts(fs, severity_order())) == fs.len(),
        total_count(present_counts(fs, severity_name_order())) == fs.len(),
{
    lemma_counts_cover(fs);
    lemma_total_present(fs, severity_order());
    lemma_total_present(fs, severity_name_order());
    reveal_with_fuel(sum_counts, 6);
    let o = severity_order();
    assert(o.drop_last() =~= seq![Severity::Info, Severity::Low, Severity::Medium, Severity::High]);
    assert(o.drop_last().drop_last() =~= seq![Severity::Info, Severity::Low, Severity::Medium]);
    assert(o.drop_last().drop_last().drop_last() =~= seq![Severity::Info, Severity::Low]);
    assert(o.drop_last().drop_last().drop_last().drop_last() =~= seq![Severity::Info]);
    assert(o.drop_last().drop_last().drop_last().drop_last().drop_last() =~= Seq::<Severity>::empty());
    let p = severity_name_order();
    assert(p.drop_last() =~= seq![Severity::Critical, Severity::High, Severity::Info, Severity::Low]);
    assert(p.drop_last().drop_last() =~= seq![Severity::Critical, Severity::High, Severity::Info]);
    assert(p.drop_last().drop_last().drop_last() =~= seq![Severity::Critical, Severity::High]);
    assert(p.drop_last().drop_last().drop_last().drop_last() =~= seq![Severity::Critical]);
    assert(p.drop_last().drop_last().drop_last().drop_last().drop_last() =~= Seq::<Severity>::empty());
}

/// The names of the severities come in the order of strings in
/// `severity_name_order`, so keying the counts by name orders them so.
pub proof fn law_severity_names_sorted()
    ensures
        strictly_sorted(severity_name_order().map_values(|s: Severity| severity_name(s))),
{
    reveal_strlit("Critical");
    reveal_strlit("High");
    reveal_strlit("Info");
    reveal_strlit("Low");
    reveal_strlit("Medium");
    let names = severity_name_order().map_values(|s: Severity| severity_name(s));
    assert(lex_lt(names[0], names[1]));
    assert(lex_lt(names[1], names[2]));
    assert(lex_lt(names[2], names[3]));
    assert(lex_lt(names[3], names[4]));
    assert forall|i: int, j: int| 0 <= i < j < names.len() implies lex_lt(#[trigger] names[i], #[trigger] names[j]) by {
        if j == i + 1 {
        } else if j == i + 2 {
            lemma_lex_transitive(names[i], names[i + 1], names[j]);
        } else if j == i + 3 {
            lemma_lex_transitive(names[i], names[i + 1], names[i + 2]);
            lemma_lex_transitive(names[i], names[i + 2], names[j]);
        } else {
            lemma_lex_transitive(names[0], names[1], names[2]);
            lemma_lex_transitive(names[0], names[2], names[3]);
            lemma_lex_transitive(names[0], names[3], names[4]);
        }
    }
}

} // verus!
