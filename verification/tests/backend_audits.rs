use ency_audit_toolkit::backend::email::{dmarc_query_name, dns_config_failure, email_audit, normalize_domain};
use ency_audit_toolkit::backend::findings::{AuditData, AuditResultEnvelope, Finding};
use ency_audit_toolkit::backend::firewall::analyze_firewall;
use ency_audit_toolkit::backend::ssl::{client_failure, ssl_audit, ssl_targets, TlsProbe};

fn titles(v: &[Finding]) -> Vec<(String, String)> {
    v.iter().map(|f| (f.severity.clone(), f.title.clone())).collect()
}

fn pair(s: &str, t: &str) -> (String, String) {
    (s.to_string(), t.to_string())
}

#[test]
fn domains_are_normalized() {
    assert_eq!(normalize_domain("  Example.COM.. "), "example.com");
    assert_eq!(dmarc_query_name("example.com"), "_dmarc.example.com");
}

#[test]
fn email_audit_rates_records() {
    let r = email_audit(
        "example.com".to_string(),
        Ok(vec!["\"v=spf1 mx -all\"".to_string(), "other".to_string()]),
        Ok(vec!["v=dmarc1; p=quarantine".to_string()]),
        Ok(1),
    );
    assert!(r.success);
    assert_eq!(r.message, "Email security audit for example.com");
    match r.data {
        AuditData::Email(d) => {
            assert_eq!(
                titles(&d.findings),
                vec![
                    pair("INFO", "SPF Record Found"),
                    pair("GOOD", "SPF Uses Strict Policy"),
                    pair("HIGH", "SPF Allows Any Sender"),
                    pair("INFO", "DMARC Record Found"),
                    pair("LOW", "DMARC Uses Quarantine Policy"),
                    pair("INFO", "MX Records Found"),
                ]
            );
            assert_eq!(d.findings[0].description, "SPF: v=spf1 mx -all");
            assert_eq!(d.findings[5].description, "Found 1 MX record(s).");
            assert_eq!(
                d.findings[5].recommendation.as_deref(),
                Some("Consider a secondary MX for redundancy.")
            );
            assert_eq!((d.spf, d.dmarc, d.mx, d.total), (0, 3, 1, 4));
            assert_eq!(d.overall_score, "FAIR");
        }
        _ => panic!("email data expected"),
    }
}

#[test]
fn email_audit_without_records() {
    let r = email_audit(
        "example.com".to_string(),
        Ok(vec!["unrelated".to_string()]),
        Ok(vec!["v=DMARC1; p=reject".to_string()]),
        Err("no MX".to_string()),
    );
    match r.data {
        AuditData::Email(d) => {
            assert_eq!(
                d.findings[0].description,
                "No SPF TXT record for example.com. Email spoofing risk."
            );
            assert_eq!(
                d.findings[1].description,
                "No DMARC record at _dmarc.example.com. Higher phishing risk."
            );
            assert_eq!(d.findings[2].description, "Failed to query MX: no MX");
            assert_eq!(d.total, 0);
            assert_eq!(d.overall_score, "POOR");
        }
        _ => panic!("email data expected"),
    }
}

#[test]
fn email_audit_lookup_errors() {
    let r = email_audit(
        "example.com".to_string(),
        Err("timed out".to_string()),
        Err("refused".to_string()),
        Ok(3),
    );
    match r.data {
        AuditData::Email(d) => {
            assert_eq!(d.findings[0].description, "TXT lookup failed: timed out");
            assert_eq!(d.findings[1].description, "DMARC lookup failed: refused");
            assert!(d.findings[2].recommendation.is_none());
            assert_eq!(d.total, 1);
        }
        _ => panic!("email data expected"),
    }
}

#[test]
fn configuration_failures() {
    let r: AuditResultEnvelope = dns_config_failure("no resolv.conf".to_string());
    assert!(!r.success);
    assert_eq!(r.message, "Failed to read system DNS config");
    assert!(matches!(r.data, AuditData::Error { ref error } if error == "no resolv.conf"));
    let r = client_failure("tls backend".to_string());
    assert_eq!(r.message, "Failed to build HTTPS client");
}

#[test]
fn ssl_target_urls() {
    let t = ssl_targets("example.com");
    assert_eq!(t.url, "https://example.com");
    assert_eq!(t.http_url, "http://example.com");
    let t = ssl_targets(" https://a.test/?next=https://b.test ");
    assert_eq!(t.url, "https://a.test/?next=https://b.test");
    assert_eq!(t.http_url, "http://a.test/?next=http://b.test");
}

#[test]
fn ssl_audit_of_a_redirecting_site() {
    let r = ssl_audit(
        "https://example.com".to_string(),
        TlsProbe::Responded { status: 200, http_status: Some(301) },
    );
    assert_eq!(r.message, "SSL/TLS audit for https://example.com");
    match r.data {
        AuditData::Ssl(d) => {
            assert_eq!(d.findings[0].description, "HTTP status 200 OK");
            assert_eq!(
                titles(&d.findings),
                vec![
                    pair("INFO", "Server Responded Successfully"),
                    pair("GOOD", "Valid TLS Certificate Presented"),
                    pair("GOOD", "HTTP Redirects to HTTPS"),
                ]
            );
            assert_eq!(d.score, 5);
            assert_eq!(d.overall_score, "GOOD");
            assert_eq!(d.target, "https://example.com");
        }
        _ => panic!("ssl data expected"),
    }
}

#[test]
fn ssl_audit_of_a_failing_server() {
    let r = ssl_audit(
        "https://example.com".to_string(),
        TlsProbe::Responded { status: 500, http_status: Some(200) },
    );
    match r.data {
        AuditData::Ssl(d) => {
            assert_eq!(
                d.findings[0].description,
                "HTTP 500 Internal Server Error (still acceptable for SSL test)"
            );
            assert_eq!(d.findings[2].title, "HTTP Not Redirecting to HTTPS");
            assert_eq!(d.score, 3);
            assert_eq!(d.overall_score, "FAIR");
        }
        _ => panic!("ssl data expected"),
    }
    let r = ssl_audit(
        "https://example.com".to_string(),
        TlsProbe::Responded { status: 204, http_status: None },
    );
    match r.data {
        AuditData::Ssl(d) => {
            assert_eq!(d.findings.len(), 2);
            assert_eq!(d.score, 4);
        }
        _ => panic!("ssl data expected"),
    }
}

#[test]
fn ssl_audit_failures() {
    let r = ssl_audit(
        "https://x.test".to_string(),
        TlsProbe::Failed { error: "Certificate has EXPIRED".to_string() },
    );
    match r.data {
        AuditData::Ssl(d) => {
            assert_eq!(d.findings[0].severity, "CRITICAL");
            assert_eq!(
                d.findings[0].description,
                "Certificate is invalid, expired, or self-signed: Certificate has EXPIRED"
            );
            assert_eq!(d.score, 0);
            assert_eq!(d.overall_score, "POOR");
        }
        _ => panic!("ssl data expected"),
    }
    let r = ssl_audit(
        "https://x.test".to_string(),
        TlsProbe::Failed { error: "operation Timed Out".to_string() },
    );
    match r.data {
        AuditData::Ssl(d) => {
            assert_eq!(d.findings[0].description, "Server at https://x.test did not respond in time.")
        }
        _ => panic!("ssl data expected"),
    }
    let r = ssl_audit("https://x.test".to_string(), TlsProbe::Failed { error: "refused".to_string() });
    match r.data {
        AuditData::Ssl(d) => {
            assert_eq!(d.findings[0].title, "Connection Failed");
            assert_eq!(d.findings[0].description, "refused");
        }
        _ => panic!("ssl data expected"),
    }
}

#[test]
fn firewall_with_critical_issues() {
    let r = analyze_firewall("permit any any\nPassword Admin\n".to_string());
    assert!(r.success);
    assert_eq!(r.message, "Firewall analysis: 2 rules, 2 issues");
    match r.data {
        AuditData::Firewall(d) => {
            assert_eq!(d.rules_count, 2);
            assert_eq!(
                titles(&d.findings),
                vec![
                    pair("CRITICAL", "Overly Permissive Allow Rule"),
                    pair("CRITICAL", "Potential Default Credentials"),
                ]
            );
            assert_eq!(d.overall_score, "POOR");
        }
        _ => panic!("firewall data expected"),
    }
}

#[test]
fn firewall_without_issues() {
    let r = analyze_firewall("# nothing here\n".to_string());
    assert_eq!(r.message, "Firewall analysis: 0 rules, 1 issues");
    match r.data {
        AuditData::Firewall(d) => {
            assert_eq!(d.findings[0].title, "No Issues Detected");
            assert_eq!(d.findings[0].description, "Analyzed 0 rules; no obvious problems found.");
            assert_eq!(d.overall_score, "GOOD");
        }
        _ => panic!("firewall data expected"),
    }
}

#[test]
fn firewall_missing_final_deny() {
    let content = "rule 1 accept tcp 10.0.0.1\nrule 2 accept tcp 10.0.0.2\nrule 3 accept tcp 10.0.0.3\nrule 4 accept tcp 10.0.0.4\nrule 5 accept tcp 10.0.0.5\nrule 6 accept tcp 10.0.0.6\n!! end of rules\n\n# trailing comment\n";
    let r = analyze_firewall(content.to_string());
    match r.data {
        AuditData::Firewall(d) => {
            assert_eq!(d.rules_count, 6);
            assert_eq!(titles(&d.findings), vec![pair("MEDIUM", "No Explicit Default-Deny Rule")]);
            assert_eq!(d.overall_score, "GOOD");
        }
        _ => panic!("firewall data expected"),
    }
    let denied = format!("{}deny all\n", content);
    match analyze_firewall(denied).data {
        AuditData::Firewall(d) => assert_eq!(d.findings[0].title, "No Issues Detected"),
        _ => panic!("firewall data expected"),
    }
}

#[test]
fn firewall_plaintext_protocols() {
    match analyze_firewall("allow ftp\nallow telnet\n".to_string()).data {
        AuditData::Firewall(d) => {
            assert_eq!(
                titles(&d.findings),
                vec![pair("HIGH", "Telnet (Port 23) Allowed"), pair("HIGH", "Unencrypted FTP Detected")]
            );
            assert_eq!(d.overall_score, "FAIR");
        }
        _ => panic!("firewall data expected"),
    }
    match analyze_firewall("allow sftp\n-A INPUT -s 0.0.0.0/0 --dport 22\nenable debug\n".to_string()).data {
        AuditData::Firewall(d) => {
            assert_eq!(
                titles(&d.findings),
                vec![
                    pair("HIGH", "Remote Access Open to the Internet"),
                    pair("MEDIUM", "Debug/Promiscuous Mode Enabled"),
                ]
            );
        }
        _ => panic!("firewall data expected"),
    }
}

#[test]
fn mx_count_in_decimal() {
    let r = email_audit("d".to_string(), Err("e".to_string()), Err("e".to_string()), Ok(1_234_567_890));
    match r.data {
        AuditData::Email(d) => assert_eq!(d.findings[2].description, "Found 1234567890 MX record(s)."),
        _ => panic!("email data expected"),
    }
}
