use msas::compliance::{enrich_finding, enrich_findings, mapping_from_pairs};
use msas::report::csv::{csv_row, write_csv_report};
use msas::report::summary::{compliance_ids, listed_findings, severity_counts, severity_counts_by_name};
use msas::{Findings, Severity};

fn finding(id: &str, severity: Severity, compliance: Option<Vec<&str>>) -> Findings {
    Findings {
        id: id.to_string(),
        title: format!("{} title", id),
        severity,
        affected_resource: "RES".to_string(),
        remediation: "Fix".to_string(),
        compliance: compliance.map(|v| v.into_iter().map(|s| s.to_string()).collect()),
    }
}

#[test]
fn test_csv_output_with_compliance() {
    let findings = vec![
        Findings {
            id: "TEST-001".to_string(),
            title: "Sample finding".to_string(),
            severity: Severity::High,
            affected_resource: "USER.TEST".to_string(),
            remediation: "Do something".to_string(),
            compliance: Some(vec!["NIST-123".to_string(), "PCI-456".to_string()]),
        },
        Findings {
            id: "TEST-002".to_string(),
            title: "Another finding".to_string(),
            severity: Severity::Info,
            affected_resource: "DSN.TEST".to_string(),
            remediation: "Do nothing".to_string(),
            compliance: None,
        },
    ];

    let buf = write_csv_report(&findings).unwrap();

    let output = String::from_utf8(buf).unwrap();
    let lines: Vec<&str> = output.lines().collect();

    assert_eq!(
        lines[0],
        "id,title,severity,affected_resource,remediation,compliance"
    );

    assert!(lines[1].contains("NIST-123; PCI-456"));

    assert!(lines[2].ends_with(',') || lines[2].contains(",,"));
}

#[test]
fn csv_quotes_fields_with_commas_and_quotes() {
    let mut f = finding("X-1", Severity::Critical, None);
    f.title = "a, \"b\"".to_string();
    let out = String::from_utf8(write_csv_report(&[f]).unwrap()).unwrap();
    assert_eq!(
        out,
        "id,title,severity,affected_resource,remediation,compliance\nX-1,\"a, \"\"b\"\"\",Critical,RES,Fix,\n"
    );
}

#[test]
fn csv_row_fields() {
    let row = csv_row(&finding("A", Severity::Medium, Some(vec!["ISO-1"])));
    assert_eq!(row, vec!["A", "A title", "Medium", "RES", "Fix", "ISO-1"]);
    let empty = String::from_utf8(write_csv_report(&[]).unwrap()).unwrap();
    assert_eq!(empty, "id,title,severity,affected_resource,remediation,compliance\n");
}

fn pairs() -> Vec<(String, Vec<String>)> {
    vec![
        ("RACF-GENERIC-WARNING".to_string(), vec!["OLD".to_string()]),
        ("RACF-GENERIC-WARNING".to_string(), vec!["NIST-AC-2".to_string(), "PCI-8.2".to_string()]),
    ]
}

#[test]
fn enrichment_attaches_mapped_ids_only() {
    let m = mapping_from_pairs(pairs());
    let g = enrich_finding(finding("RACF-GENERIC-WARNING", Severity::High, None), &m).unwrap();
    assert_eq!(g.compliance, Some(vec!["NIST-AC-2".to_string(), "PCI-8.2".to_string()]));
    assert_eq!(g.id, "RACF-GENERIC-WARNING");
    assert_eq!(g.title, "RACF-GENERIC-WARNING title");
    let h = enrich_finding(finding("SMF-INFO", Severity::Info, Some(vec!["OLD"])), &m).unwrap();
    assert_eq!(h.compliance, Some(vec!["OLD".to_string()]));
    // Enriching again changes nothing.
    let again = enrich_finding(g, &m).unwrap();
    assert_eq!(again.compliance, Some(vec!["NIST-AC-2".to_string(), "PCI-8.2".to_string()]));
}

#[test]
fn enrichment_keeps_order_and_count() {
    let m = mapping_from_pairs(pairs());
    let all = vec![
        finding("SMF-INFO", Severity::Info, None),
        finding("RACF-GENERIC-WARNING", Severity::High, None),
    ];
    let out = enrich_findings(all, &m).unwrap();
    assert_eq!(out.len(), 2);
    assert_eq!(out[0].id, "SMF-INFO");
    assert!(out[0].compliance.is_none());
    assert_eq!(out[1].compliance.as_ref().unwrap().len(), 2);
}

#[test]
fn severity_summaries_follow_severity_order() {
    let fs = vec![
        finding("A", Severity::High, None),
        finding("B", Severity::Info, None),
        finding("C", Severity::High, None),
        finding("D", Severity::Critical, None),
    ];
    let counts = severity_counts(&fs);
    let pairs: Vec<(Severity, usize)> = counts.iter().map(|s| (s.severity, s.count)).collect();
    assert_eq!(pairs, vec![(Severity::Info, 1), (Severity::High, 2), (Severity::Critical, 1)]);
    let total: usize = counts.iter().map(|s| s.count).sum();
    assert_eq!(total, fs.len());
    let by_name = severity_counts_by_name(&fs);
    assert_eq!(
        by_name,
        vec![("Critical".to_string(), 1), ("High".to_string(), 2), ("Info".to_string(), 1)]
    );
    assert!(severity_counts(&[]).is_empty());
}

#[test]
fn compliance_ids_are_sorted_and_unique() {
    let fs = vec![
        finding("A", Severity::High, Some(vec!["PCI-456", "NIST-123"])),
        finding("B", Severity::Info, None),
        finding("C", Severity::Low, Some(vec!["NIST-123", "CIS-1", "pci-1"])),
    ];
    assert_eq!(compliance_ids(&fs), vec!["CIS-1", "NIST-123", "PCI-456", "pci-1"]);
    assert!(compliance_ids(&[]).is_empty());
}

#[test]
fn listed_findings_always_carry_a_list() {
    let fs = vec![finding("A", Severity::High, None), finding("B", Severity::Low, Some(vec!["X"]))];
    let listed = listed_findings(&fs);
    assert_eq!(listed[0].compliance, Some(vec![]));
    assert_eq!(listed[1].compliance, Some(vec!["X".to_string()]));
    assert_eq!(listed[1].title, "B title");
}

#[test]
fn severity_names() {
    assert_eq!(Severity::Info.to_string(), "Info");
    assert_eq!(Severity::Medium.to_string(), "Medium");
    assert_eq!(Severity::Critical.to_string(), "Critical");
    assert!(Severity::Info < Severity::Low && Severity::High < Severity::Critical);
}
