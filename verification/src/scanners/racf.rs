//! The racf scanner's reading of its probe output.
use vstd::prelude::*;
use crate::config::Config;
use crate::error::MsasError;
use crate::scanners::scan::{initial_state, start_scan, ScanAction, ScanState, ScannerKind};
use crate::scanners::marked::{parse_marked, parse_marked_spec, Probe};
use crate::types::{findings_view, Findings};

verus! {

/// Parses the RACF scanner's output line by line; a line whose trimmed form begins with a finding indicator gives a finding, any other line is skipped.
pub fn parse_output(contents: &str) -> (r: Result<Vec<Findings>, MsasError>)
    ensures
        r matches Ok(v) && findings_view(v@) == parse_marked_spec(Probe::Racf, contents@),
{
    parse_marked(Probe::Racf, contents)
}

/// Start the RACF scanner with the given configuration; `pid` names its output file.
pub fn scan_racf_with_config(config: Config, pid: u32) -> (r: (ScanState, ScanAction))
    ensures
        initial_state(r.0, ScannerKind::Racf, Some(config), pid),
        r.1 is ReadManifestDir,
{
    start_scan(ScannerKind::Racf, Some(config), pid)
}

/// Start the RACF scanner with the default configuration; `pid` names its output file.
pub fn scan_racf(pid: u32) -> (r: (ScanState, ScanAction))
    ensures
        initial_state(r.0, ScannerKind::Racf, None, pid),
        r.1 is LoadDefaultConfig,
{
    start_scan(ScannerKind::Racf, None, pid)
}

} // verus!
