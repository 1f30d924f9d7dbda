//! The panel each audit module shows before it runs.
use crate::backend::findings::{
    advise, cat, findings_view, text, AuditData, AuditResultEnvelope, Finding, FindingView,
    PanelData,
};
use crate::text::equals_str;
use vstd::prelude::*;
use vstd::string::*;

verus! {

pub open spec fn ready_finding(description: Seq<char>, recommendation: Seq<char>) -> FindingView {
    ("INFO"@, "Ready"@, description, Some(recommendation))
}

/// The panel for a known module: title, summary and its one finding.
pub open spec fn panel_for(audit_type: Seq<char>) -> Option<(Seq<char>, Seq<char>, FindingView)> {
    if audit_type == "firewall"@ {
        Some(
            (
                "Firewall Configuration Audit"@,
                "Upload a firewall config file (.conf/.cfg/.txt) to analyze."@,
                ready_finding(
                    "Drop or select a firewall configuration file."@,
                    "Supported: iptables, UFW, Cisco IOS, Palo Alto, generic ACL formats"@,
                ),
            ),
        )
    } else if audit_type == "dns"@ {
        Some(
            (
                "DNS & Email Security Audit"@,
                "Enter your domain to check SPF, DKIM, DMARC, and MX records."@,
                ready_finding(
                    "Type your domain (e.g., example.com)."@,
                    "Read-only DNS queries; no changes made."@,
                ),
            ),
        )
    } else if audit_type == "ssl"@ {
        Some(
            (
                "SSL/TLS Certificate Audit"@,
                "Enter a URL to validate its HTTPS configuration."@,
                ready_finding(
                    "Provide your HTTPS URL (e.g., https://example.com)."@,
                    "Checks certificate validity, HTTP->HTTPS redirect, and connectivity."@,
                ),
            ),
        )
    } else {
        None
    }
}

pub open spec fn panel_message(audit_type: Seq<char>) -> Seq<char> {
    if audit_type == "firewall"@ {
        "Firewall audit selected"@
    } else if audit_type == "dns"@ {
        "DNS/Email security audit selected"@
    } else {
        "SSL/TLS audit selected"@
    }
}

fn panel(title: &str, summary: &str, description: &str, recommendation: &str) -> (d: PanelData)
    ensures
        d.title@ == title@,
        d.overall_score@ == "PENDING"@,
        d.summary@ == summary@,
        findings_view(d.findings@) == seq![ready_finding(description@, recommendation@)],
{
    let mut findings: Vec<Finding> = Vec::new();
    findings.push(advise("INFO", text("Ready"), text(description), recommendation));
    assert(findings_view(findings@) =~= seq![ready_finding(description@, recommendation@)]);
    PanelData {
        title: text(title),
        overall_score: text("PENDING"),
        summary: text(summary),
        findings,
    }
}

/// The panel for audit module `audit_type` (`firewall`, `dns` or `ssl`);
/// any other name is answered with an error panel.
pub fn run_audit(audit_type: String) -> (r: AuditResultEnvelope)
    ensures
        panel_for(audit_type@) matches Some(p) ==> {
            &&& r.success
            &&& r.message@ == panel_message(audit_type@)
            &&& r.data matches AuditData::Panel(d) && d.title@ == p.0 && d.overall_score@
                == "PENDING"@ && d.summary@ == p.1 && findings_view(d.findings@) == seq![p.2]
        },
        panel_for(audit_type@) is None ==> {
            &&& !r.success
            &&& r.message@ == "Unknown audit type: "@ + audit_type@
            &&& r.data matches AuditData::Panel(d) && d.title@ == "Audit Error"@
                && d.overall_score@ == "ERROR"@ && d.summary@ == "Unknown audit module."@
                && d.findings@.len() == 0
        },
{
    let t = audit_type.as_str();
    if equals_str(t, "firewall") {
        AuditResultEnvelope {
            success: true,
            message: text("Firewall audit selected"),
            data: AuditData::Panel(
                panel(
                    "Firewall Configuration Audit",
                    "Upload a firewall config file (.conf/.cfg/.txt) to analyze.",
                    "Drop or select a firewall configuration file.",
                    "Supported: iptables, UFW, Cisco IOS, Palo Alto, generic ACL formats",
                ),
            ),
        }
    } else if equals_str(t, "dns") {
        AuditResultEnvelope {
            success: true,
            message: text("DNS/Email security audit selected"),
            data: AuditData::Panel(
                panel(
                    "DNS & Email Security Audit",
                    "Enter your domain to check SPF, DKIM, DMARC, and MX records.",
                    "Type your domain (e.g., example.com).",
                    "Read-only DNS queries; no changes made.",
                ),
            ),
        }
    } else if equals_str(t, "ssl") {
        AuditResultEnvelope {
            success: true,
            message: text("SSL/TLS audit selected"),
            data: AuditData::Panel(
                panel(
                    "SSL/TLS Certificate Audit",
                    "Enter a URL to validate its HTTPS configuration.",
                    "Provide your HTTPS URL (e.g., https://example.com).",
                    "Checks certificate validity, HTTP->HTTPS redirect, and connectivity.",
                ),
            ),
        }
    } else {
        AuditResultEnvelope {
            success: false,
            message: cat("Unknown audit type: ", t),
            data: AuditData::Panel(
                PanelData {
                    title: text("Audit Error"),
                    overall_score: text("ERROR"),
                    summary: text("Unknown audit module."),
                    findings: Vec::new(),
                },
            ),
        }
    }
}

} // verus!
