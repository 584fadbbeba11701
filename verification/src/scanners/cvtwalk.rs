//! The CVT walker: reads the APF table entries that the assembler probe
//! found by walking the CVT, from fixed character columns.
use vstd::prelude::*;
use crate::config::Config;
use crate::error::MsasError;
use crate::scanners::scan::{initial_state, start_scan, ScanAction, ScanState, ScannerKind};
use crate::scanners::{collect_findings, lemma_collect_append, lemma_collect_from_lines};
use crate::text::{
    chars_to_string, find, find_str, first_word_bounds, first_word_or, lines, prefix_len,
    split_lines, str_chars, trim, trim_bounds, trim_end, trim_end_len, chars_eq_str,
    lemma_lines_append, lemma_trim_end_is_prefix, lemma_prefix_char,
};
use crate::types::{findings_view, plain_finding, FindingView, Findings, Severity};

verus! {

/// The characters of `s` from `start` up to `end`, as far as `s` reaches.
pub open spec fn char_slice_spec(s: Seq<char>, start: nat, end: nat) -> Seq<char> {
    if start >= s.len() || end <= start {
        seq![]
    } else if end <= s.len() {
        s.subrange(start as int, end as int)
    } else {
        s.subrange(start as int, s.len() as int)
    }
}

/// The dataset of an APF entry line: the columns 25 to 69 where the record is
/// that long, else the first word after the entry marker.
pub open spec fn entry_dataset(line: Seq<char>) -> Seq<char> {
    if line.len() >= 69 {
        trim_end(char_slice_spec(line, 25, 69))
    } else {
        first_word_or(line.skip("INFO: APF entry: dataset="@.len() as int), seq![])
    }
}

/// The volume of an APF entry line: the columns 74 to 80 where the record is
/// that long, else the first word after `vol=`, or nothing.
pub open spec fn entry_volser(line: Seq<char>) -> Seq<char> {
    if line.len() >= 80 {
        trim_end(char_slice_spec(line, 74, 80))
    } else {
        match find(line, "vol="@) {
            Some(p) => first_word_or(line.skip(p + "vol="@.len() as int), seq![]),
            None => seq![],
        }
    }
}

/// The finding that one line of the CVT walker's output gives.  Any line that
/// is not an APF entry, the entry count or one of the two warnings is ignored.
pub open spec fn cvtwalk_finding(line: Seq<char>) -> Option<FindingView> {
    if "INFO: APF entry: dataset="@.is_prefix_of(line) {
        let dataset = entry_dataset(line);
        Some(
            plain_finding(
                "CVTWALK-INFO"@,
                "APF entry: dataset="@ + dataset + " vol="@ + entry_volser(line),
                Severity::Info,
                dataset,
                "Review CVT APF entries"@,
            ),
        )
    } else if "INFO: Total APF entries:"@.is_prefix_of(line) {
        Some(
            plain_finding(
                "CVTWALK-COUNT"@,
                "Total APF entries: "@ + trim(line.skip("INFO: Total APF entries:"@.len() as int)),
                Severity::Info,
                "APF table"@,
                "N/A"@,
            ),
        )
    } else if trim_end(line) == "WARNING: CVT address not found"@ {
        Some(
            plain_finding(
                "CVTWALK-NO-CVT"@,
                "CVT address not found"@,
                Severity::High,
                "CVT pointer"@,
                "Check that the system is properly initialized and CVT exists at address 0x10 (PSA)."@,
            ),
        )
    } else if trim_end(line) == "WARNING: No APF table found"@ {
        Some(
            plain_finding(
                "CVTWALK-NO-APF"@,
                "No APF table found"@,
                Severity::High,
                "APF table"@,
                "Verify that CVTAPF points to a valid APF table; check IEAAPFxx parmlib members."@,
            ),
        )
    } else {
        None
    }
}

/// `cvtwalk_finding` as a rule over lines.
pub open spec fn cvtwalk_rule() -> spec_fn(Seq<char>) -> Option<FindingView> {
    |line: Seq<char>| cvtwalk_finding(line)
}

/// The findings in the CVT walker's output.
pub open spec fn cvtwalk_spec(contents: Seq<char>) -> Seq<FindingView> {
    collect_findings(lines(contents), cvtwalk_rule())
}

/// The characters of `s` from `start` up to `end`, as far as `s` reaches.
fn char_slice(s: &[char], start: usize, end: usize) -> (r: &[char])
    ensures
        r@ == char_slice_spec(s@, start as nat, end as nat),
{
    if start >= s.len() || end <= start {
        &s[0..0]
    } else if end <= s.len() {
        &s[start..end]
    } else {
        &s[start..s.len()]
    }
}

/// `s` without its trailing whitespace, as a string.
fn trimmed_end_string(s: &[char]) -> (r: String)
    ensures
        r@ == trim_end(s@),
{
    let e = trim_end_len(s);
    assert(s@.subrange(0, e as int) =~= s@.take(e as int));
    chars_to_string(&s[0..e])
}

/// The first word of `s` as a string, or the empty string.
fn first_word_or_empty(s: &[char]) -> (r: String)
    ensures
        r@ == first_word_or(s@, seq![]),
{
    match first_word_bounds(s) {
        Some((b, e)) => chars_to_string(&s[b..e]),
        None => String::new(),
    }
}

fn entry_dataset_of(line: &[char], k: usize) -> (r: String)
    requires
        k == "INFO: APF entry: dataset="@.len(),
        k <= line@.len(),
    ensures
        r@ == entry_dataset(line@),
{
    if line.len() >= 69 {
        trimmed_end_string(char_slice(line, 25, 69))
    } else {
        let rest = &line[k..line.len()];
        assert(rest@ =~= line@.skip(k as int));
        first_word_or_empty(rest)
    }
}

fn entry_volser_of(line: &[char]) -> (r: String)
    ensures
        r@ == entry_volser(line@),
{
    if line.len() >= 80 {
        trimmed_end_string(char_slice(line, 74, 80))
    } else {
        match find_str(line, "vol=") {
            Some(p) => {
                let m = "vol=".unicode_len();
                let rest = &line[p + m..line.len()];
                assert(rest@ =~= line@.skip(p + "vol="@.len() as int));
                first_word_or_empty(rest)
            },
            None => String::new(),
        }
    }
}

/// The finding that one line of the CVT walker's output gives, if any.
pub fn cvtwalk_line_finding(line: &[char]) -> (r: Option<Findings>)
    ensures
        match r {
            Some(f) => cvtwalk_finding(line@) == Some(f@),
            None => cvtwalk_finding(line@) is None,
        },
{
    if let Some(k) = prefix_len(line, "INFO: APF entry: dataset=") {
        let dataset = entry_dataset_of(line, k);
        let volser = entry_volser_of(line);
        let title = String::from_str("APF entry: dataset=").concat(dataset.as_str()).concat(
            " vol=",
        ).concat(volser.as_str());
        return Some(
            Findings {
                id: String::from_str("CVTWALK-INFO"),
                title,
                severity: Severity::Info,
                affected_resource: dataset,
                remediation: String::from_str("Review CVT APF entries"),
                compliance: None,
            },
        );
    }
    if let Some(k) = prefix_len(line, "INFO: Total APF entries:") {
        let after = &line[k..line.len()];
        assert(after@ =~= line@.skip(k as int));
        let (b, e) = trim_bounds(after);
        let count = chars_to_string(&after[b..e]);
        return Some(
            Findings {
                id: String::from_str("CVTWALK-COUNT"),
                title: String::from_str("Total APF entries: ").concat(count.as_str()),
                severity: Severity::Info,
                affected_resource: String::from_str("APF table"),
                remediation: String::from_str("N/A"),
                compliance: None,
            },
        );
    }
    let e = trim_end_len(line);
    let trimmed = &line[0..e];
    assert(trimmed@ =~= trim_end(line@));
    if chars_eq_str(trimmed, "WARNING: CVT address not found") {
        return Some(
            Findings {
                id: String::from_str("CVTWALK-NO-CVT"),
                title: String::from_str("CVT address not found"),
                severity: Severity::High,
                affected_resource: String::from_str("CVT pointer"),
                remediation: String::from_str(
                    "Check that the system is properly initialized and CVT exists at address 0x10 (PSA).",
                ),
                compliance: None,
            },
        );
    }
    if chars_eq_str(trimmed, "WARNING: No APF table found") {
        return Some(
            Findings {
                id: String::from_str("CVTWALK-NO-APF"),
                title: String::from_str("No APF table found"),
                severity: Severity::High,
                affected_resource: String::from_str("APF table"),
                remediation: String::from_str(
                    "Verify that CVTAPF points to a valid APF table; check IEAAPFxx parmlib members.",
                ),
                compliance: None,
            },
        );
    }
    None
}

/// Parses the decoded output line by line, extracting findings using fixed
/// *character* offsets and exact prefix matching.
pub fn parse_output(contents: &str) -> (r: Result<Vec<Findings>, MsasError>)
    ensures
        r matches Ok(v) && findings_view(v@) == cvtwalk_spec(contents@),
{
    let chars = str_chars(contents);
    let ls = split_lines(chars.as_slice());
    let ghost all = lines(contents@);
    let mut out: Vec<Findings> = Vec::new();
    let n = ls.len();
    let mut i: usize = 0;
    while i < n
        invariant
            n == ls@.len(),
            ls@.len() == all.len(),
            forall|k: int| 0 <= k < ls@.len() ==> #[trigger] ls@[k]@ == all[k],
            i <= n,
            findings_view(out@) == collect_findings(all.take(i as int), cvtwalk_rule()),
        decreases n - i,
    {
        assert(all.take(i + 1).drop_last() =~= all.take(i as int));
        assert(all.take(i + 1).last() == all[i as int]);
        let ghost before = out@;
        match cvtwalk_line_finding(ls[i].as_slice()) {
            Some(f) => {
                out.push(f);
                assert(findings_view(out@) =~= findings_view(before).push(out@.last()@));
            },
            None => {},
        }
        i = i + 1;
    }
    assert(all.take(n as int) =~= all);
    Ok(out)
}

/// Start the CVT walker with the given configuration; `pid` names its output file.
pub fn scan_cvtwalk_with_config(config: Config, pid: u32) -> (r: (ScanState, ScanAction))
    ensures
        initial_state(r.0, ScannerKind::Cvtwalk, Some(config), pid),
        r.1 is ReadManifestDir,
{
    start_scan(ScannerKind::Cvtwalk, Some(config), pid)
}

/// Start the CVT walker with the default configuration; `pid` names its output file.
pub fn scan_cvtwalk(pid: u32) -> (r: (ScanState, ScanAction))
    ensures
        initial_state(r.0, ScannerKind::Cvtwalk, None, pid),
        r.1 is LoadDefaultConfig,
{
    start_scan(ScannerKind::Cvtwalk, None, pid)
}

/// Reading is line by line: the findings of two pieces of output, the first
/// ending with a line feed, are the findings of each piece in turn.
pub proof fn law_cvtwalk_output_splits_at_lines(first: Seq<char>, second: Seq<char>)
    requires
        first.len() == 0 || first.last() == '\n',
    ensures
        cvtwalk_spec(first + second) == cvtwalk_spec(first) + cvtwalk_spec(second),
{
    lemma_lines_append(first, second);
    lemma_collect_append(lines(first), lines(second), cvtwalk_rule());
}

/// Each finding comes from one line of the output, at most one per line, and
/// is one of the four kinds the walker reports.
pub proof fn law_cvtwalk_findings_come_from_lines(contents: Seq<char>)
    ensures
        cvtwalk_spec(contents).len() <= lines(contents).len(),
        forall|i: int|
            #![trigger cvtwalk_spec(contents)[i]]
            0 <= i < cvtwalk_spec(contents).len() ==> {
                let f = cvtwalk_spec(contents)[i];
                &&& exists|j: int| 0 <= j < lines(contents).len() && cvtwalk_finding(#[trigger] lines(contents)[j]) == Some(f)
                &&& f.id == "CVTWALK-INFO"@ || f.id == "CVTWALK-COUNT"@ || f.id == "CVTWALK-NO-CVT"@ || f.id == "CVTWALK-NO-APF"@
                &&& (f.severity == Severity::High <==> (f.id == "CVTWALK-NO-CVT"@ || f.id == "CVTWALK-NO-APF"@))
            },
{
    let ls = lines(contents);
    let c = cvtwalk_spec(contents);
    lemma_collect_from_lines(ls, cvtwalk_rule());
    reveal_strlit("CVTWALK-INFO");
    reveal_strlit("CVTWALK-COUNT");
    reveal_strlit("CVTWALK-NO-CVT");
    reveal_strlit("CVTWALK-NO-APF");
    assert forall|i: int| #![trigger c[i]] 0 <= i < c.len() implies {
        let f = c[i];
        &&& exists|j: int| 0 <= j < ls.len() && cvtwalk_finding(#[trigger] ls[j]) == Some(f)
        &&& f.id == "CVTWALK-INFO"@ || f.id == "CVTWALK-COUNT"@ || f.id == "CVTWALK-NO-CVT"@ || f.id == "CVTWALK-NO-APF"@
        &&& (f.severity == Severity::High <==> (f.id == "CVTWALK-NO-CVT"@ || f.id == "CVTWALK-NO-APF"@))
    } by {
        let j = choose|j: int| #![trigger ls[j]] 0 <= j < ls.len() && cvtwalk_rule()(ls[j]) == Some(c[i]);
        assert(cvtwalk_finding(ls[j]) == Some(c[i]));
    }
}

proof fn lemma_cvtwalk_markers(l: Seq<char>)
    ensures
        "INFO: APF entry: dataset="@.is_prefix_of(l) ==> "INFO:"@.is_prefix_of(l)
            && !"INFO: Total APF entries:"@.is_prefix_of(l),
        "INFO: Total APF entries:"@.is_prefix_of(l) ==> "INFO:"@.is_prefix_of(l),
        trim_end(l) == "WARNING: CVT address not found"@ ==> "WARNING:"@.is_prefix_of(l) && !"INFO:"@.is_prefix_of(l),
        trim_end(l) == "WARNING: No APF table found"@ ==> "WARNING:"@.is_prefix_of(l) && !"INFO:"@.is_prefix_of(l),
{
    reveal_strlit("INFO: APF entry: dataset=");
    reveal_strlit("INFO: Total APF entries:");
    reveal_strlit("INFO:");
    reveal_strlit("WARNING:");
    reveal_strlit("WARNING: CVT address not found");
    reveal_strlit("WARNING: No APF table found");
    lemma_trim_end_is_prefix(l);
    if "INFO: APF entry: dataset="@.is_prefix_of(l) {
        assert(l.subrange(0, 5) =~= "INFO:"@);
        lemma_prefix_char("INFO: APF entry: dataset="@, l, 6);
        if "INFO: Total APF entries:"@.is_prefix_of(l) {
            lemma_prefix_char("INFO: Total APF entries:"@, l, 6);
        }
    }
    if "INFO: Total APF entries:"@.is_prefix_of(l) {
        assert(l.subrange(0, 5) =~= "INFO:"@);
    }
    if trim_end(l) == "WARNING: CVT address not found"@ {
        let t = trim_end(l);
        assert(t[0] == 'W');
        assert(l[0] == t[0]);
        assert(l.subrange(0, 8) =~= t.subrange(0, 8));
        assert(t.subrange(0, 8) =~= "WARNING:"@);
    }
    if trim_end(l) == "WARNING: No APF table found"@ {
        let t = trim_end(l);
        assert(t[0] == 'W');
        assert(l[0] == t[0]);
        assert(l.subrange(0, 8) =~= t.subrange(0, 8));
        assert(t.subrange(0, 8) =~= "WARNING:"@);
    }
}

/// The CVT walker reports information as `Info` and the two warnings as
/// `High`, nothing else: a finding is `Info` exactly when its line starts with
/// `INFO:`; an APF entry line gives `CVTWALK-INFO`, the entry count line gives
/// `CVTWALK-COUNT` on the APF table, and a `WARNING:` line gives `High`.
pub proof fn law_cvtwalk_severity_follows_line(contents: Seq<char>)
    ensures
        forall|i: int|
            #![trigger cvtwalk_spec(contents)[i]]
            0 <= i < cvtwalk_spec(contents).len() ==> exists|j: int|
                #![trigger lines(contents)[j]]
                0 <= j < lines(contents).len() && {
                    let l = lines(contents)[j];
                    let f = cvtwalk_spec(contents)[i];
                    &&& cvtwalk_finding(l) == Some(f)
                    &&& f.severity == Severity::Info || f.severity == Severity::High
                    &&& f.severity == Severity::Info <==> "INFO:"@.is_prefix_of(l)
                    &&& "WARNING:"@.is_prefix_of(l) ==> f.severity == Severity::High
                    &&& "INFO: APF entry: dataset="@.is_prefix_of(l) ==> {
                        &&& f.id == "CVTWALK-INFO"@
                        &&& f.severity == Severity::Info
                        &&& f.remediation == "Review CVT APF entries"@
                    }
                    &&& "INFO: Total APF entries:"@.is_prefix_of(l) ==> {
                        &&& f.id == "CVTWALK-COUNT"@
                        &&& f.severity == Severity::Info
                        &&& f.affected_resource == "APF table"@
                    }
                },
{
    let ls = lines(contents);
    let c = cvtwalk_spec(contents);
    lemma_collect_from_lines(ls, cvtwalk_rule());
    reveal_strlit("INFO:");
    reveal_strlit("WARNING:");
    assert forall|i: int| #![trigger c[i]] 0 <= i < c.len() implies exists|j: int|
        #![trigger ls[j]]
        0 <= j < ls.len() && {
            let l = ls[j];
            let f = c[i];
            &&& cvtwalk_finding(l) == Some(f)
            &&& f.severity == Severity::Info || f.severity == Severity::High
            &&& f.severity == Severity::Info <==> "INFO:"@.is_prefix_of(l)
            &&& "WARNING:"@.is_prefix_of(l) ==> f.severity == Severity::High
            &&& "INFO: APF entry: dataset="@.is_prefix_of(l) ==> {
                &&& f.id == "CVTWALK-INFO"@
                &&& f.severity == Severity::Info
                &&& f.remediation == "Review CVT APF entries"@
            }
            &&& "INFO: Total APF entries:"@.is_prefix_of(l) ==> {
                &&& f.id == "CVTWALK-COUNT"@
                &&& f.severity == Severity::Info
                &&& f.affected_resource == "APF table"@
            }
        } by {
        let j = choose|j: int| #![trigger ls[j]] 0 <= j < ls.len() && cvtwalk_rule()(ls[j]) == Some(c[i]);
        assert(cvtwalk_finding(ls[j]) == Some(c[i]));
        lemma_cvtwalk_markers(ls[j]);
        if "WARNING:"@.is_prefix_of(ls[j]) {
            lemma_prefix_char("WARNING:"@, ls[j], 0);
            if "INFO:"@.is_prefix_of(ls[j]) {
                lemma_prefix_char("INFO:"@, ls[j], 0);
            }
        }
    }
}

} // verus!
