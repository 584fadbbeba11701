use msas::cli::{console_report, default_scanners, merge_results, parse_jobs, scanner_kind};
use msas::config::{Config, MainframeConfig, PathsConfig};
use msas::scanners::scan::{scan_step, ExitReport, Phase, ScanAction, ScanEvent, ScannerKind};
use msas::scanners::{cvtwalk, racf, smf};
use msas::{Findings, MsasError, Severity};

fn config() -> Config {
    Config {
        mainframe: MainframeConfig {
            host: "HOST".to_string(),
            user: "IBMUSER".to_string(),
            pass: "PLACEHOLDER".to_string(),
        },
        paths: PathsConfig {
            rexx_pds: "IBMUSER.PROBES.REXX".to_string(),
            output_dsn: "IBMUSER.MSAS.OUTPUT".to_string(),
            local_output: "/tmp/out/test_output".to_string(),
        },
    }
}

fn finding(id: &str, severity: Severity) -> Findings {
    Findings {
        id: id.to_string(),
        title: format!("{} title", id),
        severity,
        affected_resource: "RES".to_string(),
        remediation: "Fix".to_string(),
        compliance: None,
    }
}

#[test]
fn jobs_must_be_a_positive_integer() {
    assert_eq!(parse_jobs("4"), Ok(4));
    assert_eq!(parse_jobs("+3"), Ok(3));
    assert_eq!(parse_jobs("0"), Err("--jobs must be at least 1".to_string()));
    assert_eq!(parse_jobs("abc"), Err("'abc' is not a valid integer".to_string()));
    assert_eq!(parse_jobs("-1"), Err("'-1' is not a valid integer".to_string()));
    assert_eq!(parse_jobs(""), Err("'' is not a valid integer".to_string()));
    assert_eq!(
        parse_jobs("99999999999999999999999"),
        Err("'99999999999999999999999' is not a valid integer".to_string())
    );
}

#[test]
fn scanner_names() {
    assert_eq!(scanner_kind("racf"), Some(ScannerKind::Racf));
    assert_eq!(scanner_kind("cvtwalk"), Some(ScannerKind::Cvtwalk));
    assert_eq!(scanner_kind("unknown"), None);
    assert_eq!(scanner_kind("RACF"), None);
    assert_eq!(
        default_scanners(),
        vec!["racf", "datasets", "apf", "jes", "unix", "stc", "cvtwalk", "smf"]
    );
}

#[test]
fn results_merge_in_order_or_fail_with_the_first_error() {
    let ok: Vec<Result<Vec<Findings>, String>> = vec![
        Ok(vec![finding("RACF-1", Severity::High)]),
        Ok(vec![]),
        Ok(vec![finding("SMF-1", Severity::Info), finding("SMF-2", Severity::Info)]),
    ];
    let merged = merge_results(ok).unwrap();
    let ids: Vec<&str> = merged.iter().map(|f| f.id.as_str()).collect();
    assert_eq!(ids, vec!["RACF-1", "SMF-1", "SMF-2"]);
    let bad: Vec<Result<Vec<Findings>, String>> = vec![
        Ok(vec![finding("RACF-1", Severity::High)]),
        Err("first".to_string()),
        Err("second".to_string()),
    ];
    assert_eq!(merge_results(bad).unwrap_err(), "first");
}

#[test]
fn console_report_groups_by_section() {
    assert_eq!(console_report(&[]), vec!["No findings reported."]);
    let fs = vec![
        finding("SMF-INFO", Severity::Info),
        finding("RACF-GENERIC-WARNING", Severity::High),
        finding("CVTWALK-COUNT", Severity::Info),
    ];
    let lines = console_report(&fs);
    assert_eq!(
        lines,
        vec![
            "",
            "=== RACF AUDIT FINDINGS (1 total) ===",
            "  [High] RACF-GENERIC-WARNING: RACF-GENERIC-WARNING title",
            "       Resource: RES",
            "       Remediation: Fix",
            "",
            "",
            "=== CVTWALK AUDIT FINDINGS (1 total) ===",
            "  [Info] CVTWALK-COUNT: CVTWALK-COUNT title",
            "       Resource: RES",
            "       Remediation: Fix",
            "",
        ]
    );
}

#[test]
fn password_override_replaces_only_the_password() {
    let c = config().override_password(Some("secret".to_string()));
    assert_eq!(c.mainframe.pass, "secret");
    assert_eq!(c.mainframe.user, "IBMUSER");
    let d = config().override_password(None);
    assert_eq!(d.mainframe.pass, "PLACEHOLDER");
}

#[test]
fn error_messages() {
    assert_eq!(MsasError::Parse("x".to_string()).message(), "Failed to parse: x");
    assert_eq!(MsasError::Other("y".to_string()).message(), "Error occurred: y");
    assert_eq!(MsasError::ScriptFailed("z".to_string()).message(), "Script failed: z");
    assert_eq!(MsasError::Ftp("w".to_string()).message(), "FTP error occurred: w");
    let io = MsasError::from(std::io::Error::new(std::io::ErrorKind::Other, "disk gone"));
    assert_eq!(io.message(), "I/O Error occurred: disk gone");
}

#[test]
fn scan_runs_script_then_parses_its_output() {
    let (state, action) = smf::scan_smf_with_config(config(), 42);
    assert!(matches!(action, ScanAction::ReadManifestDir));
    let (state, action) = scan_step(state, ScanEvent::ManifestDir(Some("/work/frontend/msas_cli".to_string())));
    match &action {
        ScanAction::CheckScript { script_path } => assert_eq!(script_path, "/work/scripts/run_rexx.sh"),
        _ => panic!("expected a script check"),
    }
    let (state, action) = scan_step(state, ScanEvent::ScriptChecked(true));
    match &action {
        ScanAction::RunScript(req) => {
            assert_eq!(req.program, "/work/scripts/run_rexx.sh");
            assert_eq!(req.current_dir, "/work");
            assert_eq!(req.arg, "smf_scan");
            let env: Vec<(&str, &str)> = req.env.iter().map(|(a, b)| (a.as_str(), b.as_str())).collect();
            assert_eq!(
                env,
                vec![
                    ("MF_HOST", "HOST"),
                    ("MF_USER", "IBMUSER"),
                    ("MF_PASS", "PLACEHOLDER"),
                    ("REXX_PDS", "IBMUSER.PROBES.REXX"),
                    ("OUTPUT_DSN", "IBMUSER.MSAS.OUTPUT"),
                    ("LOCAL_OUTPUT", "/tmp/out/smf_42.txt"),
                ]
            );
        },
        _ => panic!("expected a script run"),
    }
    let (state, action) = scan_step(
        state,
        ScanEvent::ScriptExited(Ok(ExitReport { success: true, status: "exit status: 0".to_string() })),
    );
    match &action {
        ScanAction::ReadOutput { path } => assert_eq!(path, "/tmp/out/smf_42.txt"),
        _ => panic!("expected a read"),
    }
    let (state, action) = scan_step(
        state,
        ScanEvent::OutputRead(Ok("WARNING: Failed RACF login: user=IBMUSER\n".to_string())),
    );
    assert_eq!(state.phase, Phase::Done);
    match action {
        ScanAction::Finish(Ok(v)) => {
            assert_eq!(v.len(), 1);
            assert_eq!(v[0].id, "SMF-SECURITY-EVENT");
            assert_eq!(v[0].affected_resource, "Failed");
        },
        _ => panic!("expected findings"),
    }
}

#[test]
fn scan_failures_end_with_their_errors() {
    let (state, action) = racf::scan_racf(7);
    assert!(matches!(action, ScanAction::LoadDefaultConfig));
    let (state, _) = scan_step(state, ScanEvent::ConfigLoaded(Ok(config())));
    let (_, action) = scan_step(state, ScanEvent::ManifestDir(None));
    match action {
        ScanAction::Finish(Err(MsasError::Other(t))) => assert_eq!(t, "Could not open manifest dir"),
        _ => panic!("expected an error"),
    }

    let (state, _) = cvtwalk::scan_cvtwalk_with_config(config(), 7);
    let (_, action) = scan_step(state, ScanEvent::ManifestDir(Some("/".to_string())));
    match action {
        ScanAction::Finish(Err(MsasError::Other(t))) => assert_eq!(t, "Could not determine workspace root"),
        _ => panic!("expected an error"),
    }

    let (state, _) = cvtwalk::scan_cvtwalk_with_config(config(), 7);
    let (state, _) = scan_step(state, ScanEvent::ManifestDir(Some("/w/a/b".to_string())));
    let (_, action) = scan_step(state, ScanEvent::ScriptChecked(false));
    match action {
        ScanAction::Finish(Err(MsasError::Other(t))) => assert_eq!(t, "Script not found: \"/w/scripts/run_hlasm.sh\""),
        _ => panic!("expected an error"),
    }

    let (state, _) = cvtwalk::scan_cvtwalk_with_config(config(), 7);
    let (state, _) = scan_step(state, ScanEvent::ManifestDir(Some("/w/a/b".to_string())));
    let (state, action) = scan_step(state, ScanEvent::ScriptChecked(true));
    match &action {
        ScanAction::RunScript(req) => {
            assert_eq!(req.arg, "cvtwalk");
            assert_eq!(req.env[3].0, "ASM_PDS");
            assert_eq!(req.env[3].1, "IBMUSER.PROBES.ASM");
        },
        _ => panic!("expected a script run"),
    }
    let (_, action) = scan_step(
        state,
        ScanEvent::ScriptExited(Ok(ExitReport { success: false, status: "exit status: 3".to_string() })),
    );
    match action {
        ScanAction::Finish(Err(MsasError::ScriptFailed(t))) => assert_eq!(t, "Script exited with status: exit status: 3"),
        _ => panic!("expected an error"),
    }

    let (state, _) = racf::scan_racf(9);
    let (_, action) = scan_step(state, ScanEvent::ConfigLoaded(Err(MsasError::Parse("bad".to_string()))));
    match action {
        ScanAction::Finish(Err(MsasError::Parse(t))) => assert_eq!(t, "bad"),
        _ => panic!("expected the configuration error"),
    }
}

#[test]
fn racf_output_file_falls_back_to_its_own_directory_name() {
    let mut c = config();
    c.paths.local_output = "/".to_string();
    let (state, _) = racf::scan_racf_with_config(c, 5);
    let (state, _) = scan_step(state, ScanEvent::ManifestDir(Some("/w/a/b".to_string())));
    let (state, _) = scan_step(state, ScanEvent::ScriptChecked(true));
    assert_eq!(state.local_output, "test_output.txt/racf_5.txt");
    let (state, action) = scan_step(
        state,
        ScanEvent::ScriptExited(Ok(ExitReport { success: true, status: "exit status: 0".to_string() })),
    );
    assert!(matches!(action, ScanAction::ReadOutput { .. }));
    let (_, action) = scan_step(
        state,
        ScanEvent::OutputRead(Err(std::io::Error::new(std::io::ErrorKind::NotFound, "missing"))),
    );
    assert!(matches!(action, ScanAction::Finish(Err(MsasError::Io(_)))));
}
