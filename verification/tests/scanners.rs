use msas::scanners::{apf, cvtwalk, datasets, jes, racf, smf, stc, unix};
use msas::Severity;

#[test]
fn test_parse_apf_output() {
    let sample = r#"
Some header
INFO: APF profile XYZ has no associated dataset
WARNING: APF dataset SYS1.LINKLIB has UACC(READ)
INSECURE: APF dataset SYS1.LPALIB grants access to ID(*)
"#;
    let findings = apf::parse_output(sample).unwrap();
    assert_eq!(findings.len(), 3);

    assert_eq!(
        findings[0].title,
        "INFO: APF profile XYZ has no associated dataset"
    );
    assert_eq!(findings[0].severity, Severity::Info);
    assert_eq!(findings[0].affected_resource, "APF");

    assert_eq!(
        findings[1].title,
        "WARNING: APF dataset SYS1.LINKLIB has UACC(READ)"
    );
    assert_eq!(findings[1].severity, Severity::High);

    assert_eq!(findings[2].severity, Severity::Critical);
    assert!(findings[2].title.contains("ID(*)"));
}

/// Constructs a realistic 133-character record for an APF entry.
fn apf_entry_line(dataset: &str, volser: &str) -> String {
    let mut buf = vec![b' '; 133];
    let prefix = b"INFO: APF entry: dataset=";
    buf[0..prefix.len()].copy_from_slice(prefix);
    let dataset_bytes = dataset.as_bytes();
    let dataset_start = 25;
    let dataset_end = dataset_start + dataset_bytes.len().min(44);
    buf[dataset_start..dataset_end].copy_from_slice(&dataset_bytes[..dataset_end - dataset_start]);
    let volser_bytes = volser.as_bytes();
    let volser_start = 74;
    let volser_end = volser_start + volser_bytes.len().min(6);
    buf[volser_start..volser_end].copy_from_slice(&volser_bytes[..volser_end - volser_start]);
    String::from_utf8(buf).unwrap()
}

#[test]
fn test_parse_cvtwalk_output() {
    let line1 = apf_entry_line("SYS1.LINKLIB", "VOL001");
    let line2 = "INFO: Total APF entries: 1".to_string();
    let line3 = "WARNING: CVT address not found".to_string();
    let line4 = apf_entry_line("IELH.SIEALINK", "VOL002");

    let sample = format!("{}\n{}\n{}\n{}", line1, line2, line3, line4);

    let findings = cvtwalk::parse_output(&sample).unwrap();

    assert_eq!(findings.len(), 4);

    assert_eq!(findings[0].id, "CVTWALK-INFO");
    assert!(findings[0].title.contains("SYS1.LINKLIB"));
    assert_eq!(findings[0].affected_resource, "SYS1.LINKLIB");

    assert_eq!(findings[1].id, "CVTWALK-COUNT");
    assert!(findings[1].title.contains("1"));

    assert_eq!(findings[2].id, "CVTWALK-NO-CVT");
    assert!(findings[2].title.contains("CVT address not found"));
    assert_eq!(findings[2].affected_resource, "CVT pointer");

    assert_eq!(findings[3].id, "CVTWALK-INFO");
    assert!(findings[3].title.contains("IELH.SIEALINK"));
    assert_eq!(findings[3].affected_resource, "IELH.SIEALINK");
}

#[test]
fn test_parse_dataset_output() {
    let sample = r#"
Some header
WARNING: Dataset SYS1.LINKLIB has UACC(READ)
INFO: Dataset SYS1.SAMPLIB has UACC(READ)
INSECURE: Dataset SYS1.PASSWORD has UACC(UPDATE)
"#;
    let findings = datasets::parse_output(sample).unwrap();
    assert_eq!(findings.len(), 3);

    assert_eq!(
        findings[0].title,
        "WARNING: Dataset SYS1.LINKLIB has UACC(READ)"
    );
    assert_eq!(findings[0].severity, Severity::High);
    assert_eq!(findings[0].affected_resource, "Dataset");

    assert_eq!(
        findings[1].title,
        "INFO: Dataset SYS1.SAMPLIB has UACC(READ)"
    );
    assert_eq!(findings[1].severity, Severity::Info);

    assert_eq!(findings[2].severity, Severity::Critical);
}

#[test]
fn test_parse_jes_output() {
    let sample = r#"
Some header
INFO: Total jobs in system: 42
WARNING: Held output detected for job JOB1 JOB12345
WARNING: Privileged job class A exists
INFO: Job class B is defined
"#;
    let findings = jes::parse_output(sample).unwrap();
    assert_eq!(findings.len(), 4);

    assert_eq!(findings[0].title, "INFO: Total jobs in system: 42");
    assert_eq!(findings[0].severity, Severity::Info);
    assert_eq!(findings[0].affected_resource, "Total");

    assert_eq!(
        findings[1].title,
        "WARNING: Held output detected for job JOB1 JOB12345"
    );
    assert_eq!(findings[1].severity, Severity::High);
    assert_eq!(findings[1].affected_resource, "Held");

    assert_eq!(findings[2].title, "WARNING: Privileged job class A exists");
    assert_eq!(findings[2].severity, Severity::High);

    assert_eq!(findings[3].title, "INFO: Job class B is defined");
    assert_eq!(findings[3].severity, Severity::Info);
}

#[test]
fn test_parse_smf_output() {
    let sample = r#"
INFO: Successful RACF login: user=IBMUSER resource=SYS1.PARMLIB
WARNING: Failed RACF login: user=IBMUSER resource=SYS1.PARMLIB
WARNING: Dataset update/alter: user=IBMUSER dataset=SYS1.LINKLIB access=UPDATE
"#;
    let findings = smf::parse_output(sample).unwrap();
    assert_eq!(findings.len(), 3);

    assert_eq!(findings[0].id, "SMF-INFO");
    assert_eq!(findings[0].severity, Severity::Info);
    assert!(findings[0].title.contains("Successful"));

    assert_eq!(findings[1].id, "SMF-SECURITY-EVENT");
    assert_eq!(findings[1].severity, Severity::High);
    assert!(findings[1].title.contains("Failed"));

    assert_eq!(findings[2].id, "SMF-SECURITY-EVENT");
    assert_eq!(findings[2].severity, Severity::High);
    assert!(findings[2].title.contains("update/alter"));
}

#[test]
fn test_parse_stc_output() {
    let sample = r#"
Some header
INFO: Checking STARTED profile JES2
WARNING: STARTED profile JES2 has no assigned user
INFO: Checking STARTED profile NET
WARNING: STARTED task NET user IBMUSER has SPECIAL attribute
"#;

    let findings = stc::parse_output(sample).unwrap();
    assert_eq!(findings.len(), 4);

    assert_eq!(findings[0].title, "INFO: Checking STARTED profile JES2");
    assert_eq!(findings[0].severity, Severity::Info);
    assert_eq!(findings[0].affected_resource, "Checking");

    assert_eq!(
        findings[1].title,
        "WARNING: STARTED profile JES2 has no assigned user"
    );
    assert_eq!(findings[1].severity, Severity::High);

    assert_eq!(findings[2].title, "INFO: Checking STARTED profile NET");
    assert_eq!(findings[2].severity, Severity::Info);

    assert_eq!(
        findings[3].title,
        "WARNING: STARTED task NET user IBMUSER has SPECIAL attribute"
    );
    assert_eq!(findings[3].severity, Severity::High);
}

#[test]
fn test_parse_unix_output() {
    let sample = r#"
Some header
WARNING: World‑writable directory /tmp/test
INFO: SUID file: -rwsr-xr-x 1 root bin 12345 /bin/su
WARNING: /tmp has non‑standard permissions: drwxrwxrwx
"#;
    let findings = unix::parse_output(sample).unwrap();
    assert_eq!(findings.len(), 3);

    assert_eq!(
        findings[0].title,
        "WARNING: World‑writable directory /tmp/test"
    );
    assert_eq!(findings[0].severity, Severity::High);
    assert_eq!(findings[0].affected_resource, "World‑writable");

    assert_eq!(
        findings[1].title,
        "INFO: SUID file: -rwsr-xr-x 1 root bin 12345 /bin/su"
    );
    assert_eq!(findings[1].severity, Severity::Info);
    assert_eq!(findings[1].affected_resource, "SUID");

    assert_eq!(
        findings[2].title,
        "WARNING: /tmp has non‑standard permissions: drwxrwxrwx"
    );
    assert_eq!(findings[2].severity, Severity::High);
}

#[test]
fn racf_findings_have_racf_id_and_remediation() {
    let sample = "  WARNING: IBMUSER has default password  \r\nINFO: User SYS1 is revoked\nINFO:no space\nINSECURE: not a RACF marker\n";
    let findings = racf::parse_output(sample).unwrap();
    assert_eq!(findings.len(), 2);
    assert_eq!(findings[0].id, "RACF-GENERIC-WARNING");
    assert_eq!(findings[0].title, "WARNING: IBMUSER has default password");
    assert_eq!(findings[0].affected_resource, "IBMUSER");
    assert_eq!(findings[0].severity, Severity::High);
    assert_eq!(findings[0].remediation, "Investigate and fix according to policy");
    assert!(findings[0].compliance.is_none());
    assert_eq!(findings[1].title, "INFO: User SYS1 is revoked");
    assert_eq!(findings[1].severity, Severity::Info);
    assert_eq!(findings[1].affected_resource, "User");
}

#[test]
fn marker_without_description_names_unknown_resource() {
    let findings = datasets::parse_output("WARNING:   \nINSECURE:").unwrap();
    assert_eq!(findings.len(), 2);
    assert_eq!(findings[0].title, "WARNING:");
    assert_eq!(findings[0].affected_resource, "unknown");
    assert_eq!(findings[1].severity, Severity::Critical);
    assert_eq!(findings[1].affected_resource, "unknown");
    assert_eq!(findings[0].id, "DATASET-WEAK-PERMISSION");
    assert_eq!(
        findings[0].remediation,
        "Review dataset permissions and restrict access according to policy"
    );
}

#[test]
fn unicode_whitespace_is_trimmed_and_splits_words() {
    // U+3000 (ideographic space) and U+00A0 (no-break space) are whitespace.
    let findings = smf::parse_output("\u{3000}INFO:\u{a0}Dataset\u{2003}read\u{3000}").unwrap();
    assert_eq!(findings.len(), 1);
    assert_eq!(findings[0].title, "INFO:\u{a0}Dataset\u{2003}read");
    assert_eq!(findings[0].affected_resource, "Dataset");
    assert_eq!(findings[0].id, "SMF-INFO");
}

#[test]
fn empty_and_unmarked_output_gives_no_findings() {
    assert!(datasets::parse_output("").unwrap().is_empty());
    assert!(smf::parse_output("\n\n   \nheader only\nwarning: lower case\n").unwrap().is_empty());
    assert!(cvtwalk::parse_output("Some header\n0000 1F2E\n").unwrap().is_empty());
}

#[test]
fn output_splits_at_lines() {
    let first = "WARNING: Dataset A has UACC(READ)\nnoise\n";
    let second = "INFO: Dataset B is fine\n";
    let whole = format!("{}{}", first, second);
    let a = datasets::parse_output(first).unwrap();
    let b = datasets::parse_output(second).unwrap();
    let ab = datasets::parse_output(&whole).unwrap();
    assert_eq!(ab.len(), a.len() + b.len());
    assert_eq!(ab[0].title, a[0].title);
    assert_eq!(ab[1].title, b[0].title);
}

#[test]
fn cvtwalk_short_lines_fall_back_to_tokens() {
    let sample = "INFO: APF entry: dataset=SYS1.SVCLIB vol=SYSRES\nINFO: APF entry: dataset=USER.LOAD\nINFO: Total APF entries:   12  \nWARNING: No APF table found   \n";
    let findings = cvtwalk::parse_output(sample).unwrap();
    assert_eq!(findings.len(), 4);
    assert_eq!(findings[0].affected_resource, "SYS1.SVCLIB");
    assert_eq!(findings[0].title, "APF entry: dataset=SYS1.SVCLIB vol=SYSRES");
    assert_eq!(findings[0].remediation, "Review CVT APF entries");
    assert_eq!(findings[1].title, "APF entry: dataset=USER.LOAD vol=");
    assert_eq!(findings[2].title, "Total APF entries: 12");
    assert_eq!(findings[2].affected_resource, "APF table");
    assert_eq!(findings[2].remediation, "N/A");
    assert_eq!(findings[3].id, "CVTWALK-NO-APF");
    assert_eq!(findings[3].severity, Severity::High);
    assert_eq!(findings[3].title, "No APF table found");
}

#[test]
fn cvtwalk_fixed_columns_are_trimmed() {
    let line = apf_entry_line("SYS1.LPALIB", "RES1");
    let findings = cvtwalk::parse_output(&line).unwrap();
    assert_eq!(findings.len(), 1);
    assert_eq!(findings[0].title, "APF entry: dataset=SYS1.LPALIB vol=RES1");
    // A warning with leading space is not recognised; only trailing space is dropped.
    assert!(cvtwalk::parse_output(" WARNING: CVT address not found").unwrap().is_empty());
}

#[test]
fn carriage_returns_end_lines_only_before_line_feeds() {
    let findings = datasets::parse_output("INFO: A\r\nINFO: B\r").unwrap();
    assert_eq!(findings.len(), 2);
    assert_eq!(findings[0].title, "INFO: A");
    // The final `\r` stays with the line, and trimming removes it.
    assert_eq!(findings[1].title, "INFO: B");
    let cvt = cvtwalk::parse_output("INFO: Total APF entries: 3\r\n").unwrap();
    assert_eq!(cvt[0].title, "Total APF entries: 3");
}
