//! The stc scanner's reading of its probe output.
use vstd::prelude::*;
use crate::config::Config;
use crate::error::MsasError;
use crate::scanners::scan::{initial_state, start_scan, ScanAction, ScanState, ScannerKind};
use crate::scanners::marked::{parse_marked, parse_marked_spec, Probe};
use crate::types::{findings_view, Findings};

verus! {

/// Parse started-task probe output into findings.
pub fn parse_output(contents: &str) -> (r: Result<Vec<Findings>, MsasError>)
    ensures
        r matches Ok(v) && findings_view(v@) == parse_marked_spec(Probe::Stc, contents@),
{
    parse_marked(Probe::Stc, contents)
}

/// Start the started-task scanner with the given configuration; `pid` names its output file.
pub fn scan_stc_with_config(config: Config, pid: u32) -> (r: (ScanState, ScanAction))
    ensures
        initial_state(r.0, ScannerKind::Stc, Some(config), pid),
        r.1 is ReadManifestDir,
{
    start_scan(ScannerKind::Stc, Some(config), pid)
}

/// Start the started-task scanner with the default configuration; `pid` names its output file.
pub fn scan_stc(pid: u32) -> (r: (ScanState, ScanAction))
    ensures
        initial_state(r.0, ScannerKind::Stc, None, pid),
        r.1 is LoadDefaultConfig,
{
    start_scan(ScannerKind::Stc, None, pid)
}

} // verus!
