use ency_audit_toolkit::commands::firewall_analysis::{firewall_report, rule_signals};

const CONFIG: &str = "# sample rules\n*filter\n:INPUT DROP [0:0]\ndefault policy drop\n-A INPUT -p tcp --dport 22 -s 0.0.0.0/0 -j ACCEPT\n-A INPUT -p tcp --dport 23 -j ACCEPT\n; note\n   \n-A INPUT -j LOG --log-prefix dropped\n";

#[test]
fn sample_rules_are_counted_and_assessed() {
    let r = firewall_report("/etc/fw.rules".to_string(), CONFIG);
    assert_eq!(r.file, "/etc/fw.rules");
    assert_eq!(r.rules_analyzed, 6);
    let statuses: Vec<(&str, &str)> =
        r.findings.iter().map(|f| (f.check.as_str(), f.status.as_str())).collect();
    assert_eq!(
        statuses,
        vec![
            ("Default Deny Policy", "PASS"),
            ("SSH Access", "WARN"),
            ("Telnet Usage", "FAIL"),
            ("Ingress Restrictions", "WARN"),
            ("Logging Enabled", "PASS"),
            ("Configuration Summary", "INFO"),
        ]
    );
    assert_eq!(
        r.findings[5].detail,
        "Analyzed 6 lines from /etc/fw.rules. This is a basic heuristic scan\u{2014}manual review recommended."
    );
}

#[test]
fn quiet_config_passes_most_checks() {
    let r = firewall_report("fw.conf".to_string(), "DEFAULT DENY\r\n");
    assert_eq!(r.rules_analyzed, 1);
    let statuses: Vec<&str> = r.findings.iter().map(|f| f.status.as_str()).collect();
    assert_eq!(statuses, vec!["PASS", "PASS", "PASS", "PASS", "WARN", "INFO"]);
}

#[test]
fn empty_file_has_no_rules() {
    let r = firewall_report("empty".to_string(), "");
    assert_eq!(r.rules_analyzed, 0);
    assert_eq!(r.findings.len(), 6);
    assert_eq!(r.findings[0].status, "FAIL");
}

#[test]
fn signals_of_one_rule() {
    let s = rule_signals("allow ssh from any input");
    assert!(s.ssh_open);
    assert!(s.unrestricted_ingress);
    assert!(!s.telnet);
    assert!(!s.default_deny);
    assert!(!s.logging);
}

#[test]
fn comments_and_blank_lines_change_nothing() {
    let plain = firewall_report("a".to_string(), "allow ssh from any input\n");
    let commented = firewall_report(
        "a".to_string(),
        "# header\n\n; note\nallow ssh from any input\n   # trailing\n",
    );
    assert_eq!(plain.rules_analyzed, commented.rules_analyzed);
    let a: Vec<&str> = plain.findings.iter().map(|f| f.status.as_str()).collect();
    let b: Vec<&str> = commented.findings.iter().map(|f| f.status.as_str()).collect();
    assert_eq!(a, b);
}

#[test]
fn files_with_the_same_rule_lines_report_alike() {
    let a = firewall_report("f".to_string(), "default deny\nallow telnet\n");
    let b = firewall_report("f".to_string(), "\n# top\ndefault deny\n  ; mid\n\nallow telnet\n#end");
    assert_eq!(a.rules_analyzed, b.rules_analyzed);
    let da: Vec<&str> = a.findings.iter().map(|f| f.detail.as_str()).collect();
    let db: Vec<&str> = b.findings.iter().map(|f| f.detail.as_str()).collect();
    assert_eq!(da, db);
}
