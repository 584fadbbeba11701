//! The decisions of the command line: which scanners run, how their results
//! combine, the `--jobs` value, and what is printed for the findings.
use vstd::prelude::*;
use crate::scanners::scan::{output_tag, ScannerKind};
use crate::text::{chars_eq_str, decimal, decimal_string, prefix_len, str_chars};
use crate::types::{findings_view, severity_name, strings_view, FindingView, Findings};

verus! {

/// A decimal digit.
pub open spec fn is_digit(c: char) -> bool {
    '0' <= c && c <= '9'
}

/// The value of a run of decimal digits.
pub open spec fn digits_value(d: Seq<char>) -> nat
    decreases d.len(),
{
    if d.len() == 0 {
        0
    } else {
        digits_value(d.drop_last()) * 10 + ((d.last() as int) - ('0' as int)) as nat
    }
}

/// What `str::parse::<usize>` accepts: an optional `+` followed by one or
/// more decimal digits whose value fits in a `usize`.
pub open spec fn parsed_usize(s: Seq<char>) -> Option<usize> {
    let d = if s.len() > 0 && s[0] == '+' {
        s.drop_first()
    } else {
        s
    };
    if d.len() > 0 && (forall|i: int| 0 <= i < d.len() ==> is_digit(#[trigger] d[i])) && digits_value(d)
        <= usize::MAX {
        Some(digits_value(d) as usize)
    } else {
        None
    }
}

/// `str::parse::<usize>`: as its documentation says, an optional `+` sign
/// followed by digits, whose value must fit; anything else is an error.
#[verifier::external_body]
fn parse_usize(s: &str) -> (r: Option<usize>)
    ensures
        r == parsed_usize(s@),
{
    s.parse::<usize>().ok()
}

/// The message for a `--jobs` value that is not a number.
pub open spec fn not_integer_text(s: Seq<char>) -> Seq<char> {
    "'"@ + s + "' is not a valid integer"@
}

/// The value of `--jobs`: a number of at least one.
pub fn parse_jobs(s: &str) -> (r: Result<usize, String>)
    ensures
        match parsed_usize(s@) {
            None => r matches Err(e) && e@ == not_integer_text(s@),
            Some(n) => if n < 1 {
                r matches Err(e) && e@ == "--jobs must be at least 1"@
            } else {
                r == Ok::<usize, String>(n)
            },
        },
{
    match parse_usize(s) {
        None => Err(String::from_str("'").concat(s).concat("' is not a valid integer")),
        Some(n) => if n < 1 {
            Err(String::from_str("--jobs must be at least 1"))
        } else {
            Ok(n)
        },
    }
}

/// The name of each scanner on the command line.
pub open spec fn scanner_name(kind: ScannerKind) -> Seq<char> {
    match kind {
        ScannerKind::Racf => "racf"@,
        ScannerKind::Datasets => "datasets"@,
        ScannerKind::Apf => "apf"@,
        ScannerKind::Jes => "jes"@,
        ScannerKind::Unix => "unix"@,
        ScannerKind::Stc => "stc"@,
        ScannerKind::Cvtwalk => "cvtwalk"@,
        ScannerKind::Smf => "smf"@,
    }
}

/// The scanners that run when none is named, in order.
pub open spec fn default_scanner_kinds() -> Seq<ScannerKind> {
    seq![
        ScannerKind::Racf,
        ScannerKind::Datasets,
        ScannerKind::Apf,
        ScannerKind::Jes,
        ScannerKind::Unix,
        ScannerKind::Stc,
        ScannerKind::Cvtwalk,
        ScannerKind::Smf,
    ]
}

/// The scanner that a name selects, if any.
pub fn scanner_kind(name: &str) -> (r: Option<ScannerKind>)
    ensures
        match r {
            Some(k) => scanner_name(k) == name@,
            None => forall|k: ScannerKind| scanner_name(k) != name@,
        },
{
    let c = str_chars(name);
    let s = c.as_slice();
    if chars_eq_str(s, "racf") {
        Some(ScannerKind::Racf)
    } else if chars_eq_str(s, "datasets") {
        Some(ScannerKind::Datasets)
    } else if chars_eq_str(s, "apf") {
        Some(ScannerKind::Apf)
    } else if chars_eq_str(s, "jes") {
        Some(ScannerKind::Jes)
    } else if chars_eq_str(s, "unix") {
        Some(ScannerKind::Unix)
    } else if chars_eq_str(s, "stc") {
        Some(ScannerKind::Stc)
    } else if chars_eq_str(s, "cvtwalk") {
        Some(ScannerKind::Cvtwalk)
    } else if chars_eq_str(s, "smf") {
        Some(ScannerKind::Smf)
    } else {
        None
    }
}

/// The names of the scanners that run when none is named, in order.
pub fn default_scanners() -> (r: Vec<String>)
    ensures
        strings_view(r@) == default_scanner_kinds().map_values(|k: ScannerKind| scanner_name(k)),
{
    let mut v: Vec<String> = Vec::new();
    v.push(String::from_str("racf"));
    v.push(String::from_str("datasets"));
    v.push(String::from_str("apf"));
    v.push(String::from_str("jes"));
    v.push(String::from_str("unix"));
    v.push(String::from_str("stc"));
    v.push(String::from_str("cvtwalk"));
    v.push(String::from_str("smf"));
    assert(strings_view(v@) =~= default_scanner_kinds().map_values(|k: ScannerKind| scanner_name(k)));
    v
}

/// The findings of the first results, one run after the other, where all of
/// them succeeded.
pub open spec fn all_findings<E>(rs: Seq<Result<Vec<Findings>, E>>) -> Seq<FindingView>
    decreases rs.len(),
{
    if rs.len() == 0 {
        seq![]
    } else {
        all_findings(rs.drop_last()) + match rs.last() {
            Ok(v) => findings_view(v@),
            Err(_) => seq![],
        }
    }
}

/// Combine the results of the scanners in order: the first error if one
/// failed, else all findings one scanner after the other.
pub fn merge_results<E>(results: Vec<Result<Vec<Findings>, E>>) -> (r: Result<Vec<Findings>, E>)
    ensures
        match r {
            Ok(v) => (forall|i: int| 0 <= i < results@.len() ==> #[trigger] results@[i] is Ok)
                && findings_view(v@) == all_findings(results@),
            Err(e) => exists|i: int|
                0 <= i < results@.len() && #[trigger] results@[i] == Err::<Vec<Findings>, E>(e) && (
                forall|j: int| 0 <= j < i ==> #[trigger] results@[j] is Ok),
        },
{
    let ghost rs = results@;
    let mut out: Vec<Findings> = Vec::new();
    for res in it: results.into_iter()
        invariant
            it.seq() == rs,
            forall|j: int| 0 <= j < it.index() ==> #[trigger] rs[j] is Ok,
            findings_view(out@) == all_findings(rs.take(it.index() as int)),
    {
        let ghost i = it.index();
        assert(rs.take(i + 1).drop_last() =~= rs.take(i as int));
        assert(rs.take(i + 1).last() == rs[i as int]);
        match res {
            Ok(v) => {
                let ghost before = findings_view(out@);
                let mut more = v;
                let ghost vv = findings_view(more@);
                out.append(&mut more);
                assert(findings_view(out@) =~= before + vv);
            },
            Err(e) => {
                assert(rs[i as int] == Err::<Vec<Findings>, E>(e));
                return Err(e);
            },
        }
    }
    assert(rs.take(rs.len() as int) =~= rs);
    Ok(out)
}

/// The console sections: the prefix of the ids that belong to each, and its
/// header.
pub open spec fn console_sections() -> Seq<(Seq<char>, Seq<char>)> {
    seq![
        ("RACF"@, "RACF AUDIT FINDINGS"@),
        ("DATASET"@, "DATASET AUDIT FINDINGS"@),
        ("APF"@, "APF AUDIT FINDINGS"@),
        ("JES"@, "JES AUDIT FINDINGS"@),
        ("UNIX"@, "UNIX AUDIT FINDINGS"@),
        ("STC"@, "STC AUDIT FINDINGS"@),
        ("CVTWALK"@, "CVTWALK AUDIT FINDINGS"@),
    ]
}

/// The findings whose id starts with the prefix, in order.
pub open spec fn members(fs: Seq<FindingView>, prefix: Seq<char>) -> Seq<FindingView>
    decreases fs.len(),
{
    if fs.len() == 0 {
        seq![]
    } else {
        let prev = members(fs.drop_last(), prefix);
        if prefix.is_prefix_of(fs.last().id) {
            prev.push(fs.last())
        } else {
            prev
        }
    }
}

/// The lines printed for one finding.
pub open spec fn finding_lines(f: FindingView) -> Seq<Seq<char>> {
    seq![
        "  ["@ + severity_name(f.severity) + "] "@ + f.id + ": "@ + f.title,
        "       Resource: "@ + f.affected_resource,
        "       Remediation: "@ + f.remediation,
        seq![],
    ]
}

/// The lines printed for the findings, one after the other.
pub open spec fn findings_lines(fs: Seq<FindingView>) -> Seq<Seq<char>>
    decreases fs.len(),
{
    if fs.len() == 0 {
        seq![]
    } else {
        findings_lines(fs.drop_last()) + finding_lines(fs.last())
    }
}

/// The lines of one section: nothing where no finding belongs to it, else an
/// empty line, the header with the number of findings, and their lines.
pub open spec fn section_lines(fs: Seq<FindingView>, prefix: Seq<char>, header: Seq<char>) -> Seq<Seq<char>> {
    let m = members(fs, prefix);
    if m.len() == 0 {
        seq![]
    } else {
        seq![seq![], "=== "@ + header + " ("@ + decimal(m.len()) + " total) ==="@] + findings_lines(m)
    }
}

/// The lines of the first sections.
pub open spec fn sections_lines(fs: Seq<FindingView>, sections: Seq<(Seq<char>, Seq<char>)>) -> Seq<Seq<char>>
    decreases sections.len(),
{
    if sections.len() == 0 {
        seq![]
    } else {
        sections_lines(fs, sections.drop_last()) + section_lines(fs, sections.last().0, sections.last().1)
    }
}

/// What the console shows for the findings: a notice where there are none,
/// else the sections in order.
pub open spec fn console_lines(fs: Seq<FindingView>) -> Seq<Seq<char>> {
    if fs.len() == 0 {
        seq!["No findings reported."@]
    } else {
        sections_lines(fs, console_sections())
    }
}

/// The lines printed for one finding.
fn finding_text(f: &Findings) -> (r: Vec<String>)
    ensures
        strings_view(r@) == finding_lines(f@),
{
    let mut v: Vec<String> = Vec::new();
    let sev = f.severity.to_string();
    v.push(
        String::from_str("  [").concat(sev.as_str()).concat("] ").concat(f.id.as_str()).concat(
            ": ",
        ).concat(f.title.as_str()),
    );
    v.push(String::from_str("       Resource: ").concat(f.affected_resource.as_str()));
    v.push(String::from_str("       Remediation: ").concat(f.remediation.as_str()));
    v.push(String::new());
    assert(strings_view(v@) =~= finding_lines(f@));
    v
}

/// The lines of one section.
fn section_text(findings: &[Findings], prefix: &str, header: &str) -> (r: Vec<String>)
    ensures
        strings_view(r@) == section_lines(findings_view(findings@), prefix@, header@),
{
    let ghost fs = findings_view(findings@);
    let mut body: Vec<String> = Vec::new();
    let mut count: usize = 0;
    let n = findings.len();
    let mut i: usize = 0;
    while i < n
        invariant
            n == findings@.len(),
            fs == findings_view(findings@),
            i <= n,
            count == members(fs.take(i as int), prefix@).len(),
            count <= i,
            strings_view(body@) == findings_lines(members(fs.take(i as int), prefix@)),
        decreases n - i,
    {
        assert(fs.take(i + 1).drop_last() =~= fs.take(i as int));
        assert(fs.take(i + 1).last() == findings@[i as int]@);
        let id_chars = str_chars(findings[i].id.as_str());
        if prefix_len(id_chars.as_slice(), prefix).is_some() {
            let ghost before = strings_view(body@);
            let mut lines = finding_text(&findings[i]);
            let ghost added = strings_view(lines@);
            body.append(&mut lines);
            assert(strings_view(body@) =~= before + added);
            let ghost m = members(fs.take(i + 1), prefix@);
            assert(m.drop_last() =~= members(fs.take(i as int), prefix@));
            count = count + 1;
        }
        i = i + 1;
    }
    assert(fs.take(n as int) =~= fs);
    let mut out: Vec<String> = Vec::new();
    if count == 0 {
        assert(strings_view(out@) =~= section_lines(fs, prefix@, header@));
        return out;
    }
    out.push(String::new());
    let number = decimal_string(count as u64);
    out.push(
        String::from_str("=== ").concat(header).concat(" (").concat(number.as_str()).concat(
            " total) ===",
        ),
    );
    let ghost head = strings_view(out@);
    let ghost tail = strings_view(body@);
    out.append(&mut body);
    assert(strings_view(out@) =~= head + tail);
    assert(head =~= seq![seq![], "=== "@ + header@ + " ("@ + decimal(count as nat) + " total) ==="@]);
    out
}

/// The lines that the console shows for the findings.
pub fn console_report(findings: &[Findings]) -> (r: Vec<String>)
    ensures
        strings_view(r@) == console_lines(findings_view(findings@)),
{
    let mut out: Vec<String> = Vec::new();
    if findings.len() == 0 {
        out.push(String::from_str("No findings reported."));
        assert(strings_view(out@) =~= console_lines(findings_view(findings@)));
        return out;
    }
    let prefixes = ["RACF", "DATASET", "APF", "JES", "UNIX", "STC", "CVTWALK"];
    let headers = [
        "RACF AUDIT FINDINGS",
        "DATASET AUDIT FINDINGS",
        "APF AUDIT FINDINGS",
        "JES AUDIT FINDINGS",
        "UNIX AUDIT FINDINGS",
        "STC AUDIT FINDINGS",
        "CVTWALK AUDIT FINDINGS",
    ];
    let ghost sections = console_sections();
    assert forall|k: int| 0 <= k < 7 implies #[trigger] sections[k] == (prefixes@[k]@, headers@[k]@) by {}
    for k in 0..7
        invariant
            sections == console_sections(),
            forall|j: int| 0 <= j < 7 ==> #[trigger] sections[j] == (prefixes@[j]@, headers@[j]@),
            strings_view(out@) == sections_lines(findings_view(findings@), sections.take(k as int)),
    {
        assert(sections.take(k + 1).drop_last() =~= sections.take(k as int));
        assert(sections.take(k + 1).last() == sections[k as int]);
        let ghost before = strings_view(out@);
        let mut lines = section_text(findings, prefixes[k], headers[k]);
        let ghost added = strings_view(lines@);
        out.append(&mut lines);
        assert(strings_view(out@) =~= before + added);
    }
    assert(sections.take(7) =~= sections);
    out
}

/// Each scanner is selected by its own name, the one its output file is also
/// named after, and by no other: the eight names are `racf`, `datasets`,
/// `apf`, `jes`, `unix`, `stc`, `cvtwalk` and `smf`, one per scanner; and the
/// scanners that run when none is named are all eight in that order.
pub proof fn law_scanner_names(name: Seq<char>, k: ScannerKind)
    ensures
        scanner_name(k) == output_tag(k),
        scanner_name(k) == name <==> {
            ||| name == "racf"@ && k == ScannerKind::Racf
            ||| name == "datasets"@ && k == ScannerKind::Datasets
            ||| name == "apf"@ && k == ScannerKind::Apf
            ||| name == "jes"@ && k == ScannerKind::Jes
            ||| name == "unix"@ && k == ScannerKind::Unix
            ||| name == "stc"@ && k == ScannerKind::Stc
            ||| name == "cvtwalk"@ && k == ScannerKind::Cvtwalk
            ||| name == "smf"@ && k == ScannerKind::Smf
        },
        default_scanner_kinds().map_values(|s: ScannerKind| scanner_name(s)) == seq![
            "racf"@,
            "datasets"@,
            "apf"@,
            "jes"@,
            "unix"@,
            "stc"@,
            "cvtwalk"@,
            "smf"@,
        ],
{
    reveal_strlit("racf");
    reveal_strlit("datasets");
    reveal_strlit("apf");
    reveal_strlit("jes");
    reveal_strlit("unix");
    reveal_strlit("stc");
    reveal_strlit("cvtwalk");
    reveal_strlit("smf");
    assert(default_scanner_kinds().map_values(|s: ScannerKind| scanner_name(s)) =~= seq![
        "racf"@,
        "datasets"@,
        "apf"@,
        "jes"@,
        "unix"@,
        "stc"@,
        "cvtwalk"@,
        "smf"@,
    ]);
}

proof fn lemma_members_contains(fs: Seq<FindingView>, prefix: Seq<char>, i: int)
    requires
        0 <= i < fs.len(),
        prefix.is_prefix_of(fs[i].id),
    ensures
        members(fs, prefix).contains(fs[i]),
    decreases fs.len(),
{
    let prev = members(fs.drop_last(), prefix);
    if i < fs.len() - 1 {
        assert(fs.drop_last()[i] == fs[i]);
        lemma_members_contains(fs.drop_last(), prefix, i);
        let k = choose|k: int| 0 <= k < prev.len() && prev[k] == fs[i];
        if prefix.is_prefix_of(fs.last().id) {
            assert(prev.push(fs.last())[k] == fs[i]);
        }
    } else {
        assert(prev.push(fs.last())[prev.len() as int] == fs[i]);
    }
}

proof fn lemma_findings_lines_contains(ms: Seq<FindingView>, j: int, x: Seq<char>)
    requires
        0 <= j < ms.len(),
        finding_lines(ms[j]).contains(x),
    ensures
        findings_lines(ms).contains(x),
    decreases ms.len(),
{
    let a = findings_lines(ms.drop_last());
    let b = finding_lines(ms.last());
    if j < ms.len() - 1 {
        assert(ms.drop_last()[j] == ms[j]);
        lemma_findings_lines_contains(ms.drop_last(), j, x);
        let k = choose|k: int| 0 <= k < a.len() && a[k] == x;
        assert((a + b)[k] == x);
    } else {
        let k = choose|k: int| 0 <= k < b.len() && b[k] == x;
        assert((a + b)[a.len() + k] == x);
    }
}

proof fn lemma_sections_lines_contains(
    fs: Seq<FindingView>,
    sections: Seq<(Seq<char>, Seq<char>)>,
    k: int,
    x: Seq<char>,
)
    requires
        0 <= k < sections.len(),
        section_lines(fs, sections[k].0, sections[k].1).contains(x),
    ensures
        sections_lines(fs, sections).contains(x),
    decreases sections.len(),
{
    let a = sections_lines(fs, sections.drop_last());
    let b = section_lines(fs, sections.last().0, sections.last().1);
    if k < sections.len() - 1 {
        assert(sections.drop_last()[k] == sections[k]);
        lemma_sections_lines_contains(fs, sections.drop_last(), k, x);
        let j = choose|j: int| 0 <= j < a.len() && a[j] == x;
        assert((a + b)[j] == x);
    } else {
        let j = choose|j: int| 0 <= j < b.len() && b[j] == x;
        assert((a + b)[a.len() + j] == x);
    }
}

/// Every finding whose id starts with a section's prefix (`RACF`, `DATASET`,
/// `APF`, `JES`, `UNIX`, `STC`, `CVTWALK`) is printed, as
/// `  [<severity>] <id>: <title>`, and the console shows that section's
/// header `=== <HEADER> (` with the section's count.
pub proof fn law_console_lists_sectioned_findings(
    fs: Seq<FindingView>,
    i: int,
    prefix: Seq<char>,
    header: Seq<char>,
)
    requires
        0 <= i < fs.len(),
        prefix.is_prefix_of(fs[i].id),
        ({
        ||| prefix == "RACF"@ && header == "RACF AUDIT FINDINGS"@
        ||| prefix == "DATASET"@ && header == "DATASET AUDIT FINDINGS"@
        ||| prefix == "APF"@ && header == "APF AUDIT FINDINGS"@
        ||| prefix == "JES"@ && header == "JES AUDIT FINDINGS"@
        ||| prefix == "UNIX"@ && header == "UNIX AUDIT FINDINGS"@
        ||| prefix == "STC"@ && header == "STC AUDIT FINDINGS"@
        ||| prefix == "CVTWALK"@ && header == "CVTWALK AUDIT FINDINGS"@
        }),
    ensures
        console_lines(fs).contains(
            "  ["@ + severity_name(fs[i].severity) + "] "@ + fs[i].id + ": "@ + fs[i].title,
        ),
        exists|k: int|
            0 <= k < console_lines(fs).len() && ("=== "@ + header + " ("@).is_prefix_of(
                #[trigger] console_lines(fs)[k],
            ),
{
    let secs = console_sections();
    let kk: int = if prefix == "RACF"@ && header == "RACF AUDIT FINDINGS"@ {
        0
    } else if prefix == "DATASET"@ && header == "DATASET AUDIT FINDINGS"@ {
        1
    } else if prefix == "APF"@ && header == "APF AUDIT FINDINGS"@ {
        2
    } else if prefix == "JES"@ && header == "JES AUDIT FINDINGS"@ {
        3
    } else if prefix == "UNIX"@ && header == "UNIX AUDIT FINDINGS"@ {
        4
    } else if prefix == "STC"@ && header == "STC AUDIT FINDINGS"@ {
        5
    } else {
        6
    };
    assert(secs[kk] == (prefix, header));
    let m = members(fs, prefix);
    lemma_members_contains(fs, prefix, i);
    let j = choose|j: int| 0 <= j < m.len() && m[j] == fs[i];
    let line = "  ["@ + severity_name(fs[i].severity) + "] "@ + fs[i].id + ": "@ + fs[i].title;
    assert(finding_lines(m[j])[0] == line);
    lemma_findings_lines_contains(m, j, line);
    let hdr = "=== "@ + header + " ("@ + decimal(m.len()) + " total) ==="@;
    let sl = section_lines(fs, prefix, header);
    assert(sl == seq![seq![], hdr] + findings_lines(m));
    let q2 = choose|q: int| 0 <= q < findings_lines(m).len() && findings_lines(m)[q] == line;
    assert(sl[2 + q2] == line);
    assert(sl.contains(line));
    assert(sl[1] == hdr);
    assert(sl.contains(hdr));
    lemma_sections_lines_contains(fs, secs, kk, line);
    lemma_sections_lines_contains(fs, secs, kk, hdr);
    let c = console_lines(fs);
    let p = "=== "@ + header + " ("@;
    assert(hdr.subrange(0, p.len() as int) =~= p);
    let k = choose|k: int| 0 <= k < c.len() && c[k] == hdr;
    assert(p.is_prefix_of(c[k]));
}

} // verus!
