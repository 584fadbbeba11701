//! The unix scanner's reading of its probe output.
use vstd::prelude::*;
use crate::config::Config;
use crate::error::MsasError;
use crate::scanners::scan::{initial_state, start_scan, ScanAction, ScanState, ScannerKind};
use crate::scanners::marked::{parse_marked, parse_marked_spec, Probe};
use crate::types::{findings_view, Findings};

verus! {

/// Parse UNIX System Services probe output into findings.
pub fn parse_output(contents: &str) -> (r: Result<Vec<Findings>, MsasError>)
    ensures
        r matches Ok(v) && findings_view(v@) == parse_marked_spec(Probe::Unix, contents@),
{
    parse_marked(Probe::Unix, contents)
}

/// Start the UNIX scanner with the given configuration; `pid` names its output file.
pub fn scan_unix_with_config(config: Config, pid: u32) -> (r: (ScanState, ScanAction))
    ensures
        initial_state(r.0, ScannerKind::Unix, Some(config), pid),
        r.1 is ReadManifestDir,
{
    start_scan(ScannerKind::Unix, Some(config), pid)
}

/// Start the UNIX scanner with the default configuration; `pid` names its output file.
pub fn scan_unix(pid: u32) -> (r: (ScanState, ScanAction))
    ensures
        initial_state(r.0, ScannerKind::Unix, None, pid),
        r.1 is LoadDefaultConfig,
{
    start_scan(ScannerKind::Unix, None, pid)
}

} // verus!
