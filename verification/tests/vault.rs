use audit_agent::models::report::VulnerabilityReport;
use audit_agent::models::severity::Severity;
use audit_agent::models::vulnerability::Vulnerability;
use audit_agent::vault::{loaded_findings, stored_form, stored_id};

fn stored_finding() -> Vulnerability {
    Vulnerability {
        name: "n".to_string(),
        severity: Severity::High,
        description: "d".to_string(),
        location: "l".to_string(),
        impacted_code: "c".to_string(),
        recommendation: "r".to_string(),
    }
}

const STORED: &str = r#"[{"name":"n","severity":"high","description":"d","location":"l","impacted_code":"c","recommendations":"r"}]"#;

#[test]
fn a_report_is_stored_as_the_array_of_its_findings() {
    let report = VulnerabilityReport { vulnerabilities: vec![stored_finding()] };
    assert_eq!(stored_form(&report), STORED);
    assert_eq!(stored_form(&VulnerabilityReport::new()), "[]");
}

#[test]
fn the_id_is_the_output_without_the_whitespace_around_it() {
    assert_eq!(stored_id("  0xabc\n"), "0xabc");
    assert_eq!(stored_id("id with space\r\n"), "id with space");
    assert_eq!(stored_id("\n"), "");
}

#[test]
fn what_was_stored_is_loaded_again() {
    let report = VulnerabilityReport { vulnerabilities: vec![stored_finding(), stored_finding()] };
    assert_eq!(loaded_findings(&stored_form(&report)), report.vulnerabilities);
    assert_eq!(loaded_findings(&format!("\n {} \n", STORED)), vec![stored_finding()]);
    assert_eq!(loaded_findings("[]"), Vec::new());
}

#[test]
fn an_output_that_is_no_list_of_findings_loads_nothing() {
    for output in ["", "null", "{}", "not json", "[3]", "{\"vulnerabilities\": []}", "[{}]"] {
        assert_eq!(loaded_findings(output), Vec::new(), "{:?}", output);
    }
    let partly = format!("[{},{{}}]", &STORED[1..STORED.len() - 1]);
    assert_eq!(loaded_findings(&partly), Vec::new());
}
