//! Probes whose output marks each line of interest with a severity marker
//! (`WARNING:`, `INSECURE:`, `INFO:`) followed by a description whose first
//! word names what is affected.
use vstd::prelude::*;
use crate::error::MsasError;
use crate::scanners::{collect_findings, lemma_collect_append, lemma_collect_contains, lemma_collect_from_lines};
use crate::text::{
    first_word, lemma_lines_append, trim_start, word_len,
    chars_to_string, first_word_bounds, first_word_or, lines, prefix_len, split_lines, str_chars, trim,
    trim_bounds,
};
use crate::types::{findings_view, plain_finding, FindingView, Findings, Severity};

verus! {

/// The probes whose output is read by markers.
#[derive(Debug, Clone, Copy, PartialEq, Eq, Structural)]
pub enum Probe {
    Datasets,
    Racf,
    Smf,
    Apf,
    Jes,
    Stc,
    Unix,
}

/// The marker that a trimmed line starts with, with its severity and length.
/// RACF output knows only warnings and `INFO: ` with a space after the colon.
pub open spec fn marker(probe: Probe, t: Seq<char>) -> Option<(Severity, nat)> {
    if "WARNING:"@.is_prefix_of(t) {
        Some((Severity::High, "WARNING:"@.len()))
    } else if probe == Probe::Racf {
        if "INFO: "@.is_prefix_of(t) {
            Some((Severity::Info, "INFO: "@.len()))
        } else {
            None
        }
    } else if "INSECURE:"@.is_prefix_of(t) {
        Some((Severity::Critical, "INSECURE:"@.len()))
    } else if "INFO:"@.is_prefix_of(t) {
        Some((Severity::Info, "INFO:"@.len()))
    } else {
        None
    }
}

/// The id that a probe gives its findings of a severity.
pub open spec fn finding_id(probe: Probe, severity: Severity) -> Seq<char> {
    match probe {
        Probe::Datasets => "DATASET-WEAK-PERMISSION"@,
        Probe::Racf => "RACF-GENERIC-WARNING"@,
        Probe::Smf => if severity == Severity::Info {
            "SMF-INFO"@
        } else {
            "SMF-SECURITY-EVENT"@
        },
        Probe::Apf => "APF-AUTHORIZATION"@,
        Probe::Jes => "JES-CONFIGURATION"@,
        Probe::Stc => "STC-CONFIGURATION"@,
        Probe::Unix => "UNIX-PERMISSION"@,
    }
}

/// The remediation that a probe advises for its findings.
pub open spec fn remediation(probe: Probe) -> Seq<char> {
    match probe {
        Probe::Datasets => "Review dataset permissions and restrict access according to policy"@,
        Probe::Racf => "Investigate and fix according to policy"@,
        Probe::Smf => "Review SMF records for security events"@,
        Probe::Apf => "Review APF-authorized libraries and restrict access according to policy"@,
        Probe::Jes => "Review JES job classes and held output according to policy"@,
        Probe::Stc => "Review started task user assignments according to policy"@,
        Probe::Unix => "Review UNIX file permissions and restrict access according to policy"@,
    }
}

/// The finding that one line of a probe's output gives: a line that, trimmed,
/// starts with a marker gives a finding titled with the trimmed line, whose
/// affected resource is the first word after the marker (`unknown` where there
/// is none).  Any other line gives none.
pub open spec fn marked_finding(probe: Probe, line: Seq<char>) -> Option<FindingView> {
    let t = trim(line);
    match marker(probe, t) {
        Some((severity, k)) => Some(
            plain_finding(
                finding_id(probe, severity),
                t,
                severity,
                first_word_or(trim(t.skip(k as int)), "unknown"@),
                remediation(probe),
            ),
        ),
        None => None,
    }
}

/// `marked_finding` for one probe, as a rule over lines.
pub open spec fn marked_rule(probe: Probe) -> spec_fn(Seq<char>) -> Option<FindingView> {
    |line: Seq<char>| marked_finding(probe, line)
}

/// The findings in a probe's output.
pub open spec fn parse_marked_spec(probe: Probe, contents: Seq<char>) -> Seq<FindingView> {
    collect_findings(lines(contents), marked_rule(probe))
}

fn marker_of(probe: Probe, t: &[char]) -> (r: Option<(Severity, usize)>)
    ensures
        match r {
            Some((s, k)) => marker(probe, t@) == Some((s, k as nat)) && k <= t@.len(),
            None => marker(probe, t@) is None,
        },
{
    if let Some(k) = prefix_len(t, "WARNING:") {
        return Some((Severity::High, k));
    }
    if probe == Probe::Racf {
        if let Some(k) = prefix_len(t, "INFO: ") {
            return Some((Severity::Info, k));
        }
        return None;
    }
    if let Some(k) = prefix_len(t, "INSECURE:") {
        return Some((Severity::Critical, k));
    }
    if let Some(k) = prefix_len(t, "INFO:") {
        return Some((Severity::Info, k));
    }
    None
}

fn id_of(probe: Probe, severity: Severity) -> (r: String)
    ensures
        r@ == finding_id(probe, severity),
{
    match probe {
        Probe::Datasets => String::from_str("DATASET-WEAK-PERMISSION"),
        Probe::Racf => String::from_str("RACF-GENERIC-WARNING"),
        Probe::Smf => if severity == Severity::Info {
            String::from_str("SMF-INFO")
        } else {
            String::from_str("SMF-SECURITY-EVENT")
        },
        Probe::Apf => String::from_str("APF-AUTHORIZATION"),
        Probe::Jes => String::from_str("JES-CONFIGURATION"),
        Probe::Stc => String::from_str("STC-CONFIGURATION"),
        Probe::Unix => String::from_str("UNIX-PERMISSION"),
    }
}

fn remediation_of(probe: Probe) -> (r: String)
    ensures
        r@ == remediation(probe),
{
    match probe {
        Probe::Datasets => String::from_str("Review dataset permissions and restrict access according to policy"),
        Probe::Racf => String::from_str("Investigate and fix according to policy"),
        Probe::Smf => String::from_str("Review SMF records for security events"),
        Probe::Apf => String::from_str("Review APF-authorized libraries and restrict access according to policy"),
        Probe::Jes => String::from_str("Review JES job classes and held output according to policy"),
        Probe::Stc => String::from_str("Review started task user assignments according to policy"),
        Probe::Unix => String::from_str("Review UNIX file permissions and restrict access according to policy"),
    }
}

/// The first word of `s` as a string, or `unknown`.
fn first_word_string(s: &[char]) -> (r: String)
    ensures
        r@ == first_word_or(s@, "unknown"@),
{
    match first_word_bounds(s) {
        Some((b, e)) => chars_to_string(&s[b..e]),
        None => String::from_str("unknown"),
    }
}

/// The finding that one line of a probe's output gives, if any.
pub fn marked_line_finding(probe: Probe, line: &[char]) -> (r: Option<Findings>)
    ensures
        match r {
            Some(f) => marked_finding(probe, line@) == Some(f@),
            None => marked_finding(probe, line@) is None,
        },
{
    let (b, e) = trim_bounds(line);
    let t = &line[b..e];
    match marker_of(probe, t) {
        None => None,
        Some((severity, k)) => {
            let after = &t[k..t.len()];
            assert(after@ =~= t@.skip(k as int));
            let (rb, re) = trim_bounds(after);
            let rest = &after[rb..re];
            let f = Findings {
                id: id_of(probe, severity),
                title: chars_to_string(t),
                severity,
                affected_resource: first_word_string(rest),
                remediation: remediation_of(probe),
                compliance: None,
            };
            Some(f)
        },
    }
}

/// The findings in a probe's output, one for each marked line, in order.
pub fn parse_marked(probe: Probe, contents: &str) -> (r: Result<Vec<Findings>, MsasError>)
    ensures
        r matches Ok(v) && findings_view(v@) == parse_marked_spec(probe, contents@),
{
    let chars = str_chars(contents);
    let ls = split_lines(chars.as_slice());
    let ghost all = lines(contents@);
    let mut out: Vec<Findings> = Vec::new();
    let n = ls.len();
    let mut i: usize = 0;
    while i < n
        invariant
            n == ls@.len(),
            ls@.len() == all.len(),
            forall|k: int| 0 <= k < ls@.len() ==> #[trigger] ls@[k]@ == all[k],
            i <= n,
            findings_view(out@) == collect_findings(all.take(i as int), marked_rule(probe)),
        decreases n - i,
    {
        assert(all.take(i + 1).drop_last() =~= all.take(i as int));
        assert(all.take(i + 1).last() == all[i as int]);
        let ghost before = out@;
        match marked_line_finding(probe, ls[i].as_slice()) {
            Some(f) => {
                out.push(f);
                assert(findings_view(out@) =~= findings_view(before).push(out@.last()@));
            },
            None => {},
        }
        i = i + 1;
    }
    assert(all.take(n as int) =~= all);
    Ok(out)
}

/// Reading is line by line: the findings of two pieces of output, the first
/// ending with a line feed, are the findings of each piece in turn.
pub proof fn law_marked_output_splits_at_lines(probe: Probe, first: Seq<char>, second: Seq<char>)
    requires
        first.len() == 0 || first.last() == '\n',
    ensures
        parse_marked_spec(probe, first + second) == parse_marked_spec(probe, first) + parse_marked_spec(
            probe,
            second,
        ),
{
    lemma_lines_append(first, second);
    lemma_collect_append(lines(first), lines(second), marked_rule(probe));
}

/// A non-empty word has a first character.
proof fn lemma_first_word_nonempty(s: Seq<char>)
    ensures
        first_word(s) matches Some(w) ==> w.len() > 0,
{
    let t = trim_start(s);
    if t.len() > 0 {
        lemma_trim_start_not_space(s);
        assert(word_len(t) == 1 + word_len(t.drop_first()));
        crate::text::lemma_word_len_bound(t);
    }
}

/// What `trim_start` leaves does not start with whitespace.
proof fn lemma_trim_start_not_space(s: Seq<char>)
    ensures
        trim_start(s).len() > 0 ==> !crate::text::is_space(trim_start(s)[0]),
    decreases s.len(),
{
    if s.len() > 0 && crate::text::is_space(s[0]) {
        lemma_trim_start_not_space(s.drop_first());
    }
}

/// Each finding comes from one line of the output, at most one per line: its
/// title is that line trimmed, it starts with one of the probe's markers, the
/// severity is the marker's, and neither the title nor the affected resource
/// is empty.
pub proof fn law_marked_findings_come_from_marked_lines(probe: Probe, contents: Seq<char>)
    ensures
        parse_marked_spec(probe, contents).len() <= lines(contents).len(),
        forall|i: int|
            #![trigger parse_marked_spec(probe, contents)[i]]
            0 <= i < parse_marked_spec(probe, contents).len() ==> {
                let f = parse_marked_spec(probe, contents)[i];
                &&& exists|j: int| 0 <= j < lines(contents).len() && f.title == trim(#[trigger] lines(contents)[j])
                &&& marker(probe, f.title) matches Some((sev, _)) && sev == f.severity
                &&& f.title.len() > 0
                &&& f.affected_resource.len() > 0
                &&& f.compliance is None
            },
{
    let ls = lines(contents);
    let c = parse_marked_spec(probe, contents);
    lemma_collect_from_lines(ls, marked_rule(probe));
    reveal_strlit("WARNING:");
    reveal_strlit("INFO: ");
    reveal_strlit("INSECURE:");
    reveal_strlit("INFO:");
    reveal_strlit("unknown");
    assert forall|i: int| #![trigger c[i]] 0 <= i < c.len() implies {
        let f = c[i];
        &&& exists|j: int| 0 <= j < ls.len() && f.title == trim(#[trigger] ls[j])
        &&& marker(probe, f.title) matches Some((sev, _)) && sev == f.severity
        &&& f.title.len() > 0
        &&& f.affected_resource.len() > 0
        &&& f.compliance is None
    } by {
        let j = choose|j: int| #![trigger ls[j]] 0 <= j < ls.len() && marked_rule(probe)(ls[j]) == Some(c[i]);
        let t = trim(ls[j]);
        let (sev, k) = marker(probe, t)->0;
        lemma_first_word_nonempty(trim(t.skip(k as int)));
    }
}

/// The markers exclude one another: a line starts with at most one of
/// `WARNING:`, `INSECURE:` and `INFO:`; `INFO: ` is a case of `INFO:`.
pub proof fn lemma_markers_exclusive(t: Seq<char>)
    ensures
        !("WARNING:"@.is_prefix_of(t) && "INSECURE:"@.is_prefix_of(t)),
        !("WARNING:"@.is_prefix_of(t) && "INFO:"@.is_prefix_of(t)),
        !("INSECURE:"@.is_prefix_of(t) && "INFO:"@.is_prefix_of(t)),
        "INFO: "@.is_prefix_of(t) ==> "INFO:"@.is_prefix_of(t),
{
    reveal_strlit("WARNING:");
    reveal_strlit("INSECURE:");
    reveal_strlit("INFO:");
    reveal_strlit("INFO: ");
    if "WARNING:"@.is_prefix_of(t) {
        assert(t[0] == "WARNING:"@[0]);
    }
    if "INSECURE:"@.is_prefix_of(t) {
        assert(t[0] == "INSECURE:"@[0]);
        assert(t[2] == "INSECURE:"@[2]);
    }
    if "INFO:"@.is_prefix_of(t) {
        assert(t[0] == "INFO:"@[0]);
        assert(t[2] == "INFO:"@[2]);
    }
    if "INFO: "@.is_prefix_of(t) {
        assert(t.subrange(0, 5) =~= "INFO: "@.subrange(0, 5));
        assert("INFO: "@.subrange(0, 5) =~= "INFO:"@);
    }
}

/// What a finding is follows from the marker its title starts with: a
/// `WARNING:` line is `High`, an `INSECURE:` line `Critical` and an `INFO:`
/// line `Info`; RACF reads only `WARNING:` and `INFO: ` lines, all under the
/// id `RACF-GENERIC-WARNING`; an SMF finding has the id `SMF-INFO` exactly for
/// an `INFO:` line and `SMF-SECURITY-EVENT` for the others; the dataset
/// scanner files every finding as `DATASET-WEAK-PERMISSION`.
pub proof fn law_marked_findings_follow_their_marker(probe: Probe, contents: Seq<char>)
    ensures
        forall|i: int|
            #![trigger parse_marked_spec(probe, contents)[i]]
            0 <= i < parse_marked_spec(probe, contents).len() ==> {
                let f = parse_marked_spec(probe, contents)[i];
                &&& "WARNING:"@.is_prefix_of(f.title) ==> f.severity == Severity::High
                &&& probe != Probe::Racf ==> {
                    &&& "WARNING:"@.is_prefix_of(f.title) || "INSECURE:"@.is_prefix_of(f.title)
                        || "INFO:"@.is_prefix_of(f.title)
                    &&& "INSECURE:"@.is_prefix_of(f.title) ==> f.severity == Severity::Critical
                    &&& "INFO:"@.is_prefix_of(f.title) ==> f.severity == Severity::Info
                }
                &&& probe == Probe::Racf ==> {
                    &&& "WARNING:"@.is_prefix_of(f.title) || "INFO: "@.is_prefix_of(f.title)
                    &&& "INFO: "@.is_prefix_of(f.title) ==> f.severity == Severity::Info
                    &&& f.id == "RACF-GENERIC-WARNING"@
                    &&& f.remediation == "Investigate and fix according to policy"@
                }
                &&& probe == Probe::Smf ==> {
                    &&& f.id == "SMF-INFO"@ <==> "INFO:"@.is_prefix_of(f.title)
                    &&& f.id == "SMF-SECURITY-EVENT"@ <==> !"INFO:"@.is_prefix_of(f.title)
                }
                &&& probe == Probe::Datasets ==> {
                    &&& f.id == "DATASET-WEAK-PERMISSION"@
                    &&& f.remediation == "Review dataset permissions and restrict access according to policy"@
                }
            },
{
    let ls = lines(contents);
    let c = parse_marked_spec(probe, contents);
    lemma_collect_from_lines(ls, marked_rule(probe));
    reveal_strlit("SMF-INFO");
    reveal_strlit("SMF-SECURITY-EVENT");
    assert forall|i: int| #![trigger c[i]] 0 <= i < c.len() implies {
        let f = c[i];
        &&& "WARNING:"@.is_prefix_of(f.title) ==> f.severity == Severity::High
        &&& probe != Probe::Racf ==> {
            &&& "WARNING:"@.is_prefix_of(f.title) || "INSECURE:"@.is_prefix_of(f.title)
                || "INFO:"@.is_prefix_of(f.title)
            &&& "INSECURE:"@.is_prefix_of(f.title) ==> f.severity == Severity::Critical
            &&& "INFO:"@.is_prefix_of(f.title) ==> f.severity == Severity::Info
        }
        &&& probe == Probe::Racf ==> {
            &&& "WARNING:"@.is_prefix_of(f.title) || "INFO: "@.is_prefix_of(f.title)
            &&& "INFO: "@.is_prefix_of(f.title) ==> f.severity == Severity::Info
            &&& f.id == "RACF-GENERIC-WARNING"@
            &&& f.remediation == "Investigate and fix according to policy"@
        }
        &&& probe == Probe::Smf ==> {
            &&& f.id == "SMF-INFO"@ <==> "INFO:"@.is_prefix_of(f.title)
            &&& f.id == "SMF-SECURITY-EVENT"@ <==> !"INFO:"@.is_prefix_of(f.title)
        }
        &&& probe == Probe::Datasets ==> {
            &&& f.id == "DATASET-WEAK-PERMISSION"@
            &&& f.remediation == "Review dataset permissions and restrict access according to policy"@
        }
    } by {
        let j = choose|j: int| #![trigger ls[j]] 0 <= j < ls.len() && marked_rule(probe)(ls[j]) == Some(c[i]);
        let t = trim(ls[j]);
        assert(marked_finding(probe, ls[j]) == Some(c[i]));
        assert(c[i].title == t);
        lemma_markers_exclusive(t);
        let (sev, k) = marker(probe, t)->0;
        assert(c[i].severity == sev);
        assert(c[i].id == finding_id(probe, sev));
        assert(c[i].remediation == remediation(probe));
        assert("SMF-INFO"@.len() != "SMF-SECURITY-EVENT"@.len());
        if probe == Probe::Smf {
            if "INFO:"@.is_prefix_of(t) {
                assert(sev == Severity::Info);
            } else {
                assert(sev != Severity::Info);
            }
        }
    }
}

/// No marked line is lost: every line that, trimmed, starts with one of the
/// probe's markers gives a finding titled with that trimmed line.
pub proof fn law_marked_lines_are_reported(probe: Probe, contents: Seq<char>, j: int)
    requires
        0 <= j < lines(contents).len(),
        ({
            let t = trim(lines(contents)[j]);
            ||| "WARNING:"@.is_prefix_of(t)
            ||| probe == Probe::Racf && "INFO: "@.is_prefix_of(t)
            ||| probe != Probe::Racf && ("INSECURE:"@.is_prefix_of(t) || "INFO:"@.is_prefix_of(t))
        }),
    ensures
        exists|i: int|
            0 <= i < parse_marked_spec(probe, contents).len() && #[trigger] parse_marked_spec(probe, contents)[i].title
                == trim(lines(contents)[j]),
{
    let ls = lines(contents);
    assert(marked_rule(probe)(ls[j]) == marked_finding(probe, ls[j]));
    lemma_collect_contains(ls, marked_rule(probe), j);
    let c = parse_marked_spec(probe, contents);
    let f = marked_finding(probe, ls[j])->0;
    let i = choose|i: int| 0 <= i < c.len() && c[i] == f;
    assert(c[i].title == trim(ls[j]));
}

} // verus!
