use ency_audit_toolkit::backend::export::{json_report_from, pretty_json_report, report_file_name};
use ency_audit_toolkit::backend::findings::AuditData;
use ency_audit_toolkit::backend::ports::{
    plan_port_scan, port_scan_report, PortProbe, PortScanPlan, ProbeStatus,
};
use ency_audit_toolkit::backend::router::run_audit;

fn probe(port: u16, status: ProbeStatus, service: &str) -> PortProbe {
    PortProbe { port, outcome: Ok((status, service.to_string())) }
}

#[test]
fn empty_target_is_refused() {
    match plan_port_scan("   ") {
        PortScanPlan::Finished(r) => {
            assert!(!r.success);
            assert_eq!(r.message, "Target is empty");
            assert!(matches!(r.data, AuditData::NoFindings));
        }
        PortScanPlan::Probe { .. } => panic!("target is empty"),
    }
}

#[test]
fn common_ports_are_probed() {
    match plan_port_scan(" 10.0.0.1 ") {
        PortScanPlan::Probe { target, ports } => {
            assert_eq!(target, "10.0.0.1");
            assert_eq!(ports.len(), 20);
            assert_eq!(ports[0], (21, "FTP".to_string()));
            assert_eq!(ports[19], (8443, "HTTPS-Alt".to_string()));
        }
        PortScanPlan::Finished(_) => panic!("target given"),
    }
}

#[test]
fn scan_report_assesses_each_port() {
    let probes = vec![
        probe(21, ProbeStatus::Open, "FTP"),
        probe(22, ProbeStatus::Closed, "SSH"),
        probe(23, ProbeStatus::TimedOut, "Telnet"),
        probe(8080, ProbeStatus::Open, "HTTP-Alt"),
        PortProbe { port: 445, outcome: Err("task panicked".to_string()) },
    ];
    let r = port_scan_report("10.0.0.1".to_string(), probes);
    assert!(r.success);
    assert_eq!(r.message, "Port scan complete: 2 open, 1 closed, 1 timed out");
    match r.data {
        AuditData::Ports(d) => {
            assert_eq!(d.open_ports, vec![(21, "FTP".to_string()), (8080, "HTTP-Alt".to_string())]);
            let t: Vec<(&str, &str)> =
                d.findings.iter().map(|f| (f.severity.as_str(), f.title.as_str())).collect();
            assert_eq!(
                t,
                vec![
                    ("MEDIUM", "FTP Open (port 21)"),
                    ("LOW", "Port 23 (Telnet) Timed Out"),
                    ("INFO", "HTTP-Alt Open (port 8080)"),
                    ("LOW", "Scan Error on port 445"),
                ]
            );
            assert_eq!(d.findings[2].description, "Port 8080 (HTTP-Alt) is accessible.");
            assert_eq!(d.findings[3].description, "task panicked");
            assert_eq!((d.open, d.closed, d.timeout), (2, 1, 1));
        }
        _ => panic!("port data expected"),
    }
}

#[test]
fn scan_with_nothing_open() {
    let probes = vec![probe(3389, ProbeStatus::Closed, "RDP"), probe(443, ProbeStatus::Closed, "HTTPS")];
    let r = port_scan_report("host".to_string(), probes);
    assert_eq!(r.message, "Port scan complete: 0 open, 2 closed, 0 timed out");
    match r.data {
        AuditData::Ports(d) => {
            assert_eq!(d.findings.len(), 1);
            assert_eq!(d.findings[0].title, "No Common Ports Open");
        }
        _ => panic!("port data expected"),
    }
}

#[test]
fn known_services_have_their_own_advice() {
    let r = port_scan_report(
        "h".to_string(),
        vec![probe(443, ProbeStatus::Open, "HTTPS"), probe(3389, ProbeStatus::Open, "RDP")],
    );
    match r.data {
        AuditData::Ports(d) => {
            assert_eq!(d.findings[0].severity, "GOOD");
            assert_eq!(d.findings[0].description, "Encrypted web traffic \u{2014} good.");
            assert_eq!(d.findings[1].title, "RDP Open (port 3389)");
        }
        _ => panic!("port data expected"),
    }
}

#[test]
fn audit_panels() {
    let r = run_audit("dns".to_string());
    assert!(r.success);
    assert_eq!(r.message, "DNS/Email security audit selected");
    match r.data {
        AuditData::Panel(p) => {
            assert_eq!(p.title, "DNS & Email Security Audit");
            assert_eq!(p.overall_score, "PENDING");
            assert_eq!(p.findings.len(), 1);
            assert_eq!(
                p.findings[0].recommendation.as_deref(),
                Some("Read-only DNS queries; no changes made.")
            );
        }
        _ => panic!("panel expected"),
    }
    let r = run_audit("compliance".to_string());
    assert!(!r.success);
    assert_eq!(r.message, "Unknown audit type: compliance");
    match r.data {
        AuditData::Panel(p) => {
            assert_eq!(p.overall_score, "ERROR");
            assert!(p.findings.is_empty());
        }
        _ => panic!("panel expected"),
    }
    assert_eq!(run_audit("firewall".to_string()).message, "Firewall audit selected");
    assert_eq!(run_audit("ssl".to_string()).message, "SSL/TLS audit selected");
}

#[test]
fn export_names_and_json() {
    assert_eq!(report_file_name("20260814-203000"), "ency-audit-report-20260814-203000.html");
    assert_eq!(
        pretty_json_report("{\"b\":1,\"a\":[1,2]}"),
        Ok("{\n  \"a\": [\n    1,\n    2\n  ],\n  \"b\": 1\n}".to_string())
    );
    let bad = pretty_json_report("{oops").unwrap_err();
    let parse_error = serde_json::from_str::<serde_json::Value>("{oops").unwrap_err();
    assert_eq!(bad, format!("Invalid JSON: {}", parse_error));
}

#[test]
fn numbers_are_written_in_decimal() {
    let r = port_scan_report(
        "h".to_string(),
        vec![probe(65535, ProbeStatus::TimedOut, "X"), probe(10, ProbeStatus::Open, "Y")],
    );
    match r.data {
        AuditData::Ports(d) => {
            assert_eq!(d.findings[0].title, "Port 65535 (X) Timed Out");
            assert_eq!(d.findings[1].title, "Y Open (port 10)");
            assert_eq!(d.findings[1].description, "Port 10 (Y) is accessible.");
        }
        _ => panic!("port data expected"),
    }
}

#[test]
fn json_outcomes_become_reports() {
    assert_eq!(json_report_from(Ok(Ok("{}".to_string()))), Ok("{}".to_string()));
    assert_eq!(json_report_from(Err("eof".to_string())), Err("Invalid JSON: eof".to_string()));
    assert_eq!(
        json_report_from(Ok(Err("key".to_string()))),
        Err("Failed to format JSON: key".to_string())
    );
}
