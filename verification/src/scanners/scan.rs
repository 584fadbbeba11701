//! Running a scanner: find the probe script in the workspace, run it against
//! the mainframe with the configured credentials, read the file it wrote and
//! parse it.  The decisions stand here as a step function from a state and an
//! event to the next state and the action to take; whoever drives it performs
//! each action and reports what came of it.
use vstd::prelude::*;
use crate::config::Config;
use crate::error::MsasError;
use crate::paths::{debug_text, join, parent_of, path_debug, path_join, path_parent};
use crate::scanners::cvtwalk::{self, cvtwalk_spec};
use crate::scanners::marked::{law_marked_findings_follow_their_marker, parse_marked, parse_marked_spec, Probe};
use crate::text::{decimal, decimal_string};
use crate::types::{findings_view, FindingView, Findings};

verus! {

/// The scanners that can be run.
#[derive(Debug, Clone, Copy, PartialEq, Eq, Structural)]
pub enum ScannerKind {
    Racf,
    Datasets,
    Apf,
    Jes,
    Unix,
    Stc,
    Cvtwalk,
    Smf,
}

/// The probe whose output a scanner reads by markers; the CVT walker reads
/// its own fixed-column format instead.
pub open spec fn probe_of(kind: ScannerKind) -> Probe {
    match kind {
        ScannerKind::Racf => Probe::Racf,
        ScannerKind::Datasets => Probe::Datasets,
        ScannerKind::Apf => Probe::Apf,
        ScannerKind::Jes => Probe::Jes,
        ScannerKind::Unix => Probe::Unix,
        ScannerKind::Stc => Probe::Stc,
        ScannerKind::Smf => Probe::Smf,
        ScannerKind::Cvtwalk => Probe::Datasets,
    }
}

/// The findings that a scanner reads from its probe's output.
pub open spec fn scanner_findings(kind: ScannerKind, contents: Seq<char>) -> Seq<FindingView> {
    if kind == ScannerKind::Cvtwalk {
        cvtwalk_spec(contents)
    } else {
        parse_marked_spec(probe_of(kind), contents)
    }
}

/// The script that runs a scanner's probe: the assembler runner for the CVT
/// walker, the REXX runner for the others.
pub open spec fn script_file(kind: ScannerKind) -> Seq<char> {
    if kind == ScannerKind::Cvtwalk {
        "run_hlasm.sh"@
    } else {
        "run_rexx.sh"@
    }
}

/// The probe that the script is asked to run.
pub open spec fn probe_name(kind: ScannerKind) -> Seq<char> {
    match kind {
        ScannerKind::Racf => "racf_checks"@,
        ScannerKind::Datasets => "dataset_scan"@,
        ScannerKind::Apf => "apf_scan"@,
        ScannerKind::Jes => "jes_scan"@,
        ScannerKind::Unix => "unix_scan"@,
        ScannerKind::Stc => "stc_scan"@,
        ScannerKind::Cvtwalk => "cvtwalk"@,
        ScannerKind::Smf => "smf_scan"@,
    }
}

/// The stem of the name of the file that receives the probe's output.
pub open spec fn output_tag(kind: ScannerKind) -> Seq<char> {
    match kind {
        ScannerKind::Racf => "racf"@,
        ScannerKind::Datasets => "datasets"@,
        ScannerKind::Apf => "apf"@,
        ScannerKind::Jes => "jes"@,
        ScannerKind::Unix => "unix"@,
        ScannerKind::Stc => "stc"@,
        ScannerKind::Cvtwalk => "cvtwalk"@,
        ScannerKind::Smf => "smf"@,
    }
}

/// The directory for the output file where the configured path has no parent.
pub open spec fn fallback_dir(kind: ScannerKind) -> Seq<char> {
    if kind == ScannerKind::Racf {
        "test_output.txt"@
    } else {
        "test_output"@
    }
}

/// The error text when the manifest directory is not set.
pub open spec fn no_manifest_text(kind: ScannerKind) -> Seq<char> {
    if kind == ScannerKind::Racf {
        "Could not open manifest dir"@
    } else {
        "CARGO_MANIFEST_DIR not set"@
    }
}

/// The error text when the workspace root cannot be found.
pub open spec fn no_root_text(kind: ScannerKind) -> Seq<char> {
    if kind == ScannerKind::Racf {
        "Failed to open workspace dir"@
    } else {
        "Could not determine workspace root"@
    }
}

/// The error text when the script does not exist.
pub open spec fn no_script_text(kind: ScannerKind, script_path: Seq<char>) -> Seq<char> {
    if kind == ScannerKind::Racf {
        "Unable to find script"@
    } else {
        "Script not found: "@ + path_debug(script_path)
    }
}

/// The error text when the script exits unsuccessfully.
pub open spec fn failed_script_text(kind: ScannerKind, status: Seq<char>) -> Seq<char> {
    if kind == ScannerKind::Racf {
        "Script failed to run"@
    } else {
        "Script exited with status: "@ + status
    }
}

/// The workspace root: two levels above the manifest directory.
pub open spec fn workspace_root_of(manifest_dir: Seq<char>) -> Option<Seq<char>> {
    match path_parent(manifest_dir) {
        Some(p) => path_parent(p),
        None => None,
    }
}

/// The path of the script in the workspace.
pub open spec fn script_path_of(kind: ScannerKind, root: Seq<char>) -> Seq<char> {
    path_join(path_join(root, "scripts"@), script_file(kind))
}

/// The file that receives the probe's output: next to the configured local
/// output, named after the scanner and the process.
pub open spec fn local_output_of(kind: ScannerKind, local_output: Seq<char>, pid: u32) -> Seq<char> {
    let dir = match path_parent(local_output) {
        Some(d) => d,
        None => fallback_dir(kind),
    };
    dir + "/"@ + output_tag(kind) + "_"@ + decimal(pid as nat) + ".txt"@
}

/// The environment that the script gets: the mainframe credentials, the
/// library that holds the probe, the output dataset and the local file.
pub open spec fn script_env(kind: ScannerKind, config: Config, local_output: Seq<char>) -> Seq<(Seq<char>, Seq<char>)> {
    let library = if kind == ScannerKind::Cvtwalk {
        ("ASM_PDS"@, "IBMUSER.PROBES.ASM"@)
    } else {
        ("REXX_PDS"@, config.paths.rexx_pds@)
    };
    seq![
        ("MF_HOST"@, config.mainframe.host@),
        ("MF_USER"@, config.mainframe.user@),
        ("MF_PASS"@, config.mainframe.pass@),
        library,
        ("OUTPUT_DSN"@, config.paths.output_dsn@),
        ("LOCAL_OUTPUT"@, local_output),
    ]
}

/// The pairs as character sequences.
pub open spec fn pairs_view(v: Seq<(String, String)>) -> Seq<(Seq<char>, Seq<char>)> {
    v.map_values(|p: (String, String)| (p.0@, p.1@))
}

/// A run of the probe script.
pub struct ScriptRequest {
    /// The script to run.
    pub program: String,
    /// The directory to run it in.
    pub current_dir: String,
    /// The probe that it is asked to run.
    pub arg: String,
    /// The environment variables to set for it, in order.
    pub env: Vec<(String, String)>,
}

/// What comes of running the script.
pub struct ExitReport {
    /// Whether it exited successfully.
    pub success: bool,
    /// Its exit status, as `Display` shows it.
    pub status: String,
}

/// Where a scan stands.
#[derive(Debug, Clone, Copy, PartialEq, Eq, Structural)]
pub enum Phase {
    AwaitConfig,
    AwaitManifestDir,
    AwaitScriptCheck,
    AwaitExit,
    AwaitOutput,
    Done,
}

/// What the driver of a scan is to do next.
pub enum ScanAction {
    /// Load the default configuration; report `ConfigLoaded`.
    LoadDefaultConfig,
    /// Read the manifest directory variable; report `ManifestDir`.
    ReadManifestDir,
    /// Check that the script exists; report `ScriptChecked`.
    CheckScript { script_path: String },
    /// Run the script and wait for it; report `ScriptExited`.
    RunScript(ScriptRequest),
    /// Read the file the probe wrote; report `OutputRead`.
    ReadOutput { path: String },
    /// The scan is over, with this result.
    Finish(Result<Vec<Findings>, MsasError>),
}

/// What the driver reports after an action.
pub enum ScanEvent {
    ConfigLoaded(Result<Config, MsasError>),
    ManifestDir(Option<String>),
    ScriptChecked(bool),
    ScriptExited(Result<ExitReport, std::io::Error>),
    OutputRead(Result<String, std::io::Error>),
}

/// The state of a scan between steps.
pub struct ScanState {
    pub kind: ScannerKind,
    pub phase: Phase,
    pub config: Option<Config>,
    pub pid: u32,
    pub workspace_root: String,
    pub script_path: String,
    pub local_output: String,
}

/// The event that answers the action of a phase.
pub open spec fn event_fits(phase: Phase, event: ScanEvent) -> bool {
    match phase {
        Phase::AwaitConfig => event is ConfigLoaded,
        Phase::AwaitManifestDir => event is ManifestDir,
        Phase::AwaitScriptCheck => event is ScriptChecked,
        Phase::AwaitExit => event is ScriptExited,
        Phase::AwaitOutput => event is OutputRead,
        Phase::Done => false,
    }
}

impl ScanState {
    /// Between loading the configuration and the end, a configuration is held.
    pub open spec fn wf(&self) -> bool {
        self.phase != Phase::AwaitConfig && self.phase != Phase::Done ==> self.config is Some
    }
}

/// The state in which a scan starts, with the configuration given or to be loaded.
pub open spec fn initial_state(s: ScanState, kind: ScannerKind, config: Option<Config>, pid: u32) -> bool {
    &&& s.kind == kind
    &&& s.config == config
    &&& s.pid == pid
    &&& s.phase == match config {
        Some(_) => Phase::AwaitManifestDir,
        None => Phase::AwaitConfig,
    }
    &&& s.wf()
}

/// Start a scan of the given kind.  With a configuration the first action is
/// to read the manifest directory; without one it is to load the default
/// configuration.
pub fn start_scan(kind: ScannerKind, config: Option<Config>, pid: u32) -> (r: (ScanState, ScanAction))
    ensures
        initial_state(r.0, kind, config, pid),
        match config {
            Some(_) => r.1 is ReadManifestDir,
            None => r.1 is LoadDefaultConfig,
        },
{
    let action = match &config {
        Some(_) => ScanAction::ReadManifestDir,
        None => ScanAction::LoadDefaultConfig,
    };
    let phase = match &config {
        Some(_) => Phase::AwaitManifestDir,
        None => Phase::AwaitConfig,
    };
    (
        ScanState {
            kind,
            phase,
            config,
            pid,
            workspace_root: String::new(),
            script_path: String::new(),
            local_output: String::new(),
        },
        action,
    )
}

fn script_file_of(kind: ScannerKind) -> (r: &'static str)
    ensures
        r@ == script_file(kind),
{
    if kind == ScannerKind::Cvtwalk {
        "run_hlasm.sh"
    } else {
        "run_rexx.sh"
    }
}

fn probe_name_of(kind: ScannerKind) -> (r: &'static str)
    ensures
        r@ == probe_name(kind),
{
    match kind {
        ScannerKind::Racf => "racf_checks",
        ScannerKind::Datasets => "dataset_scan",
        ScannerKind::Apf => "apf_scan",
        ScannerKind::Jes => "jes_scan",
        ScannerKind::Unix => "unix_scan",
        ScannerKind::Stc => "stc_scan",
        ScannerKind::Cvtwalk => "cvtwalk",
        ScannerKind::Smf => "smf_scan",
    }
}

fn output_tag_of(kind: ScannerKind) -> (r: &'static str)
    ensures
        r@ == output_tag(kind),
{
    match kind {
        ScannerKind::Racf => "racf",
        ScannerKind::Datasets => "datasets",
        ScannerKind::Apf => "apf",
        ScannerKind::Jes => "jes",
        ScannerKind::Unix => "unix",
        ScannerKind::Stc => "stc",
        ScannerKind::Cvtwalk => "cvtwalk",
        ScannerKind::Smf => "smf",
    }
}

fn probe_for(kind: ScannerKind) -> (r: Probe)
    ensures
        r == probe_of(kind),
{
    match kind {
        ScannerKind::Racf => Probe::Racf,
        ScannerKind::Datasets => Probe::Datasets,
        ScannerKind::Apf => Probe::Apf,
        ScannerKind::Jes => Probe::Jes,
        ScannerKind::Unix => Probe::Unix,
        ScannerKind::Stc => Probe::Stc,
        ScannerKind::Smf => Probe::Smf,
        ScannerKind::Cvtwalk => Probe::Datasets,
    }
}

/// The findings that a scanner reads from its probe's output.
pub fn parse_scanner_output(kind: ScannerKind, contents: &str) -> (r: Result<Vec<Findings>, MsasError>)
    ensures
        r matches Ok(v) && findings_view(v@) == scanner_findings(kind, contents@),
{
    if kind == ScannerKind::Cvtwalk {
        cvtwalk::parse_output(contents)
    } else {
        parse_marked(probe_for(kind), contents)
    }
}

fn other(text: String) -> (r: MsasError)
    ensures
        r == MsasError::Other(text),
{
    MsasError::Other(text)
}

fn local_output_path(kind: ScannerKind, configured: &str, pid: u32) -> (r: String)
    ensures
        r@ == local_output_of(kind, configured@, pid),
{
    let dir = match parent_of(configured) {
        Some(d) => d,
        None => if kind == ScannerKind::Racf {
            String::from_str("test_output.txt")
        } else {
            String::from_str("test_output")
        },
    };
    let number = decimal_string(pid as u64);
    let r = dir.concat("/").concat(output_tag_of(kind)).concat("_").concat(number.as_str()).concat(
        ".txt",
    );
    r
}

fn env_pair(name: &str, value: &str) -> (r: (String, String))
    ensures
        r.0@ == name@,
        r.1@ == value@,
{
    (String::from_str(name), String::from_str(value))
}

fn script_env_of(kind: ScannerKind, config: &Config, local_output: &str) -> (r: Vec<(String, String)>)
    ensures
        pairs_view(r@) == script_env(kind, *config, local_output@),
{
    let mut env: Vec<(String, String)> = Vec::new();
    env.push(env_pair("MF_HOST", config.mainframe.host.as_str()));
    env.push(env_pair("MF_USER", config.mainframe.user.as_str()));
    env.push(env_pair("MF_PASS", config.mainframe.pass.as_str()));
    if kind == ScannerKind::Cvtwalk {
        env.push(env_pair("ASM_PDS", "IBMUSER.PROBES.ASM"));
    } else {
        env.push(env_pair("REXX_PDS", config.paths.rexx_pds.as_str()));
    }
    env.push(env_pair("OUTPUT_DSN", config.paths.output_dsn.as_str()));
    env.push(env_pair("LOCAL_OUTPUT", local_output));
    assert(pairs_view(env@) =~= script_env(kind, *config, local_output@));
    env
}

/// Take one step of a scan: given what came of the last action, decide the
/// next state and the next action.
///
/// - A configuration that could not be loaded ends the scan with its error.
/// - Without the manifest directory, or without a workspace root two levels
///   above it, the scan ends with `Other`; otherwise the script is looked up
///   under `scripts/` in the workspace root.
/// - A missing script ends the scan with `Other`; otherwise the script is run
///   in the workspace root for the scanner's probe, with the credentials, the
///   probe library, the output dataset and the local output file.
/// - A script that cannot be run ends the scan with `Io`; one that exits
///   unsuccessfully ends it with `ScriptFailed`; otherwise the local output
///   file is read.
/// - A file that cannot be read ends the scan with `Io`; otherwise the scan
///   ends with the findings parsed from it.
pub fn scan_step(state: ScanState, event: ScanEvent) -> (r: (ScanState, ScanAction))
    requires
        state.wf(),
        event_fits(state.phase, event),
    ensures
        r.0.wf(),
        r.0.kind == state.kind,
        r.0.pid == state.pid,
        r.1 is Finish <==> r.0.phase == Phase::Done,
        match event {
            ScanEvent::ConfigLoaded(Err(e)) => r.1 == ScanAction::Finish(Err(e)),
            ScanEvent::ConfigLoaded(Ok(c)) => {
                &&& r.0.config == Some(c)
                &&& r.0.phase == Phase::AwaitManifestDir
                &&& r.1 is ReadManifestDir
            },
            ScanEvent::ManifestDir(None) => r.1 matches ScanAction::Finish(Err(MsasError::Other(t)))
                && t@ == no_manifest_text(state.kind),
            ScanEvent::ManifestDir(Some(dir)) => match workspace_root_of(dir@) {
                None => r.1 matches ScanAction::Finish(Err(MsasError::Other(t)))
                    && t@ == no_root_text(state.kind),
                Some(root) => {
                    &&& r.0.config == state.config
                    &&& r.0.phase == Phase::AwaitScriptCheck
                    &&& r.0.workspace_root@ == root
                    &&& r.0.script_path@ == script_path_of(state.kind, root)
                    &&& r.1 matches ScanAction::CheckScript { script_path }
                    &&& script_path@ == script_path_of(state.kind, root)
                },
            },
            ScanEvent::ScriptChecked(false) => r.1 matches ScanAction::Finish(Err(MsasError::Other(t)))
                && t@ == no_script_text(state.kind, state.script_path@),
            ScanEvent::ScriptChecked(true) => {
                let config = state.config->0;
                let out = local_output_of(state.kind, config.paths.local_output@, state.pid);
                &&& r.0.phase == Phase::AwaitExit
                &&& r.0.local_output@ == out
                &&& r.1 matches ScanAction::RunScript(req)
                &&& req.program@ == state.script_path@
                &&& req.current_dir@ == state.workspace_root@
                &&& req.arg@ == probe_name(state.kind)
                &&& pairs_view(req.env@) == script_env(state.kind, config, out)
            },
            ScanEvent::ScriptExited(Err(e)) => r.1 == ScanAction::Finish(Err(MsasError::Io(e))),
            ScanEvent::ScriptExited(Ok(report)) => if report.success {
                &&& r.0.phase == Phase::AwaitOutput
                &&& r.0.local_output == state.local_output
                &&& r.1 matches ScanAction::ReadOutput { path }
                &&& path@ == state.local_output@
            } else {
                r.1 matches ScanAction::Finish(Err(MsasError::ScriptFailed(t)))
                    && t@ == failed_script_text(state.kind, report.status@)
            },
            ScanEvent::OutputRead(Err(e)) => r.1 == ScanAction::Finish(Err(MsasError::Io(e))),
            ScanEvent::OutputRead(Ok(contents)) => r.1 matches ScanAction::Finish(Ok(v))
                && findings_view(v@) == scanner_findings(state.kind, contents@),
        },
{
    let kind = state.kind;
    let mut next = state;
    match event {
        ScanEvent::ConfigLoaded(Err(e)) => {
            next.phase = Phase::Done;
            (next, ScanAction::Finish(Err(e)))
        },
        ScanEvent::ConfigLoaded(Ok(c)) => {
            next.config = Some(c);
            next.phase = Phase::AwaitManifestDir;
            (next, ScanAction::ReadManifestDir)
        },
        ScanEvent::ManifestDir(None) => {
            let text = if kind == ScannerKind::Racf {
                String::from_str("Could not open manifest dir")
            } else {
                String::from_str("CARGO_MANIFEST_DIR not set")
            };
            next.phase = Phase::Done;
            (next, ScanAction::Finish(Err(other(text))))
        },
        ScanEvent::ManifestDir(Some(dir)) => {
            let root = match parent_of(dir.as_str()) {
                Some(p) => parent_of(p.as_str()),
                None => None,
            };
            match root {
                None => {
                    let text = if kind == ScannerKind::Racf {
                        String::from_str("Failed to open workspace dir")
                    } else {
                        String::from_str("Could not determine workspace root")
                    };
                    next.phase = Phase::Done;
                    (next, ScanAction::Finish(Err(other(text))))
                },
                Some(root) => {
                    let scripts = join(root.as_str(), "scripts");
                    let script_path = join(scripts.as_str(), script_file_of(kind));
                    let reported = String::from_str(script_path.as_str());
                    next.workspace_root = root;
                    next.script_path = script_path;
                    next.phase = Phase::AwaitScriptCheck;
                    (next, ScanAction::CheckScript { script_path: reported })
                },
            }
        },
        ScanEvent::ScriptChecked(false) => {
            let text = if kind == ScannerKind::Racf {
                String::from_str("Unable to find script")
            } else {
                String::from_str("Script not found: ").concat(debug_text(next.script_path.as_str()).as_str())
            };
            next.phase = Phase::Done;
            (next, ScanAction::Finish(Err(other(text))))
        },
        ScanEvent::ScriptChecked(true) => {
            let config = match &next.config {
                Some(c) => c,
                None => {
                    assert(false);
                    return (next, ScanAction::Finish(Ok(Vec::new())));
                },
            };
            let out = local_output_path(kind, config.paths.local_output.as_str(), next.pid);
            let env = script_env_of(kind, config, out.as_str());
            let req = ScriptRequest {
                program: String::from_str(next.script_path.as_str()),
                current_dir: String::from_str(next.workspace_root.as_str()),
                arg: String::from_str(probe_name_of(kind)),
                env,
            };
            next.local_output = out;
            next.phase = Phase::AwaitExit;
            (next, ScanAction::RunScript(req))
        },
        ScanEvent::ScriptExited(Err(e)) => {
            next.phase = Phase::Done;
            (next, ScanAction::Finish(Err(MsasError::Io(e))))
        },
        ScanEvent::ScriptExited(Ok(report)) => {
            if report.success {
                let path = String::from_str(next.local_output.as_str());
                next.phase = Phase::AwaitOutput;
                (next, ScanAction::ReadOutput { path })
            } else {
                let text = if kind == ScannerKind::Racf {
                    String::from_str("Script failed to run")
                } else {
                    String::from_str("Script exited with status: ").concat(report.status.as_str())
                };
                next.phase = Phase::Done;
                (next, ScanAction::Finish(Err(MsasError::ScriptFailed(text))))
            }
        },
        ScanEvent::OutputRead(Err(e)) => {
            next.phase = Phase::Done;
            (next, ScanAction::Finish(Err(MsasError::Io(e))))
        },
        ScanEvent::OutputRead(Ok(contents)) => {
            let result = parse_scanner_output(kind, contents.as_str());
            next.phase = Phase::Done;
            (next, ScanAction::Finish(result))
        },
    }
}

/// A scan reads its probe's output with that scanner's own reader: the
/// findings a scan of each kind ends with are those that the scanner's
/// `parse_output` gives for the same output; in particular every finding of a
/// RACF scan has the id `RACF-GENERIC-WARNING`, and an SMF scan files exactly
/// its `INFO:` lines as `SMF-INFO`.
pub proof fn law_scan_uses_the_scanners_own_reader(contents: Seq<char>)
    ensures
        scanner_findings(ScannerKind::Racf, contents) == parse_marked_spec(Probe::Racf, contents),
        scanner_findings(ScannerKind::Datasets, contents) == parse_marked_spec(Probe::Datasets, contents),
        scanner_findings(ScannerKind::Apf, contents) == parse_marked_spec(Probe::Apf, contents),
        scanner_findings(ScannerKind::Jes, contents) == parse_marked_spec(Probe::Jes, contents),
        scanner_findings(ScannerKind::Unix, contents) == parse_marked_spec(Probe::Unix, contents),
        scanner_findings(ScannerKind::Stc, contents) == parse_marked_spec(Probe::Stc, contents),
        scanner_findings(ScannerKind::Smf, contents) == parse_marked_spec(Probe::Smf, contents),
        scanner_findings(ScannerKind::Cvtwalk, contents) == cvtwalk_spec(contents),
        forall|i: int|
            #![trigger scanner_findings(ScannerKind::Racf, contents)[i]]
            0 <= i < scanner_findings(ScannerKind::Racf, contents).len() ==> scanner_findings(
                ScannerKind::Racf,
                contents,
            )[i].id == "RACF-GENERIC-WARNING"@,
        forall|i: int|
            #![trigger scanner_findings(ScannerKind::Smf, contents)[i]]
            0 <= i < scanner_findings(ScannerKind::Smf, contents).len() ==> (scanner_findings(
                ScannerKind::Smf,
                contents,
            )[i].id == "SMF-INFO"@ <==> "INFO:"@.is_prefix_of(scanner_findings(ScannerKind::Smf, contents)[i].title)),
{
    law_marked_findings_follow_their_marker(Probe::Racf, contents);
    law_marked_findings_follow_their_marker(Probe::Smf, contents);
}

} // verus!
