//! CSV report generation for findings.
use vstd::prelude::*;
use crate::text::{join_strings, join_with};
use crate::types::{findings_view, severity_name, strings_view, FindingView, Findings};

verus! {

/// `csv::Error`, carried through unchanged.
#[verifier::external_type_specification]
#[verifier::external_body]
pub struct ExCsvError(::csv::Error);

/// The bytes that a default `csv::Writer` writes for one record with these
/// fields, the terminator included.
pub uninterp spec fn csv_record(fields: Seq<Seq<char>>) -> Seq<u8>;

/// `csv::Writer::write_record` on a fresh default writer over a vector,
/// followed by `into_inner`: the bytes of the record.  It succeeds: writing to
/// a vector cannot fail, and the writer's only other error, a record whose
/// length differs from the first record's, cannot arise on the first record.
#[verifier::external_body]
fn encode_record(fields: &Vec<String>) -> (r: Result<Vec<u8>, ::csv::Error>)
    ensures
        r is Ok,
        r matches Ok(b) ==> b@ == csv_record(strings_view(fields@)),
{
    let mut w = ::csv::Writer::from_writer(Vec::new());
    w.write_record(fields)?;
    match w.into_inner() {
        Ok(bytes) => Ok(bytes),
        Err(e) => Err(::csv::Error::from(e.into_error())),
    }
}

/// The header record.
pub open spec fn csv_header_fields() -> Seq<Seq<char>> {
    seq!["id"@, "title"@, "severity"@, "affected_resource"@, "remediation"@, "compliance"@]
}

/// The record of one finding: its fields, the severity by name, and the
/// compliance identifiers joined by `; ` (empty where there are none).
pub open spec fn csv_row_fields(f: FindingView) -> Seq<Seq<char>> {
    seq![
        f.id,
        f.title,
        severity_name(f.severity),
        f.affected_resource,
        f.remediation,
        match f.compliance {
            Some(ids) => join_with(ids, "; "@),
            None => seq![],
        },
    ]
}

/// The bytes of the records of the findings, in order.
pub open spec fn csv_rows(fs: Seq<FindingView>) -> Seq<u8>
    decreases fs.len(),
{
    if fs.len() == 0 {
        seq![]
    } else {
        csv_rows(fs.drop_last()) + csv_record(csv_row_fields(fs.last()))
    }
}

/// The whole document: the header record, then one record per finding.
pub open spec fn csv_document(fs: Seq<FindingView>) -> Seq<u8> {
    csv_record(csv_header_fields()) + csv_rows(fs)
}

/// The header record's fields.
pub fn csv_header() -> (r: Vec<String>)
    ensures
        strings_view(r@) == csv_header_fields(),
{
    let mut v: Vec<String> = Vec::new();
    v.push(String::from_str("id"));
    v.push(String::from_str("title"));
    v.push(String::from_str("severity"));
    v.push(String::from_str("affected_resource"));
    v.push(String::from_str("remediation"));
    v.push(String::from_str("compliance"));
    assert(strings_view(v@) =~= csv_header_fields());
    v
}

/// The fields of the record of one finding.
pub fn csv_row(f: &Findings) -> (r: Vec<String>)
    ensures
        strings_view(r@) == csv_row_fields(f@),
{
    let compliance = match &f.compliance {
        Some(ids) => {
            let j = join_strings(ids, "; ");
            assert(ids@.map_values(|s: String| s@) =~= strings_view(ids@));
            j
        },
        None => String::new(),
    };
    let mut v: Vec<String> = Vec::new();
    v.push(String::from_str(f.id.as_str()));
    v.push(String::from_str(f.title.as_str()));
    v.push(f.severity.to_string());
    v.push(String::from_str(f.affected_resource.as_str()));
    v.push(String::from_str(f.remediation.as_str()));
    v.push(compliance);
    assert(strings_view(v@) =~= csv_row_fields(f@));
    v
}

/// The findings as a CSV document with the header
/// `id,title,severity,affected_resource,remediation,compliance` and one
/// record per finding.  Writing into memory always succeeds.
pub fn write_csv_report(findings: &[Findings]) -> (r: Result<Vec<u8>, ::csv::Error>)
    ensures
        r matches Ok(b) && b@ == csv_document(findings_view(findings@)),
{
    let header = csv_header();
    let mut out = encode_record(&header)?;
    let ghost fs = findings_view(findings@);
    let n = findings.len();
    let mut i: usize = 0;
    while i < n
        invariant
            n == findings@.len(),
            fs == findings_view(findings@),
            i <= n,
            out@ == csv_record(csv_header_fields()) + csv_rows(fs.take(i as int)),
        decreases n - i,
    {
        let row = csv_row(&findings[i]);
        let bytes = encode_record(&row)?;
        assert(fs.take(i + 1).drop_last() =~= fs.take(i as int));
        assert(fs.take(i + 1).last() == findings@[i as int]@);
        let mut more = bytes;
        out.append(&mut more);
        assert(out@ =~= csv_record(csv_header_fields()) + csv_rows(fs.take(i + 1)));
        i = i + 1;
    }
    assert(fs.take(n as int) =~= fs);
    Ok(out)
}

} // verus!
