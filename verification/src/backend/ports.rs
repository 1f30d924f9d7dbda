//! Scan of commonly exploited TCP ports on a host. The caller connects to
//! each port; this module chooses the ports and assesses what answered.
use crate::backend::findings::{
    advise, cat, findings_view, note, text, AuditData, AuditResultEnvelope, Finding, FindingView,
    PortScanData,
};
use crate::text::{decimal, push_decimal, push_str, trim, trim_str};
use vstd::prelude::*;
use vstd::string::*;

verus! {

/// How a connection attempt to a port ended.
#[derive(Clone, Copy)]
pub enum ProbeStatus {
    Open,
    /// Refused, or failed in another way.
    Closed,
    TimedOut,
}

/// The probe of one port: its status and the name of its service, or the
/// message of the task that failed to report.
pub struct PortProbe {
    pub port: u16,
    pub outcome: Result<(ProbeStatus, String), String>,
}

pub type ProbeView = (u16, Result<(ProbeStatus, Seq<char>), Seq<char>>);

impl View for PortProbe {
    type V = ProbeView;

    open spec fn view(&self) -> ProbeView {
        (
            self.port,
            match self.outcome {
                Ok((s, service)) => Ok((s, service@)),
                Err(e) => Err(e@),
            },
        )
    }
}

pub open spec fn probes_view(v: Seq<PortProbe>) -> Seq<ProbeView> {
    v.map_values(|p: PortProbe| p@)
}

pub open spec fn ports_view(v: Seq<(u16, String)>) -> Seq<(u16, Seq<char>)> {
    v.map_values(|p: (u16, String)| (p.0, p.1@))
}

/// What to do for a scan target.
pub enum PortScanPlan {
    /// The scan is over before it began: this is the result.
    Finished(AuditResultEnvelope),
    /// Connect to each of `ports` on `target`.
    Probe { target: String, ports: Vec<(u16, String)> },
}

/// The ports scanned, with their services.
pub open spec fn common_ports() -> Seq<(u16, Seq<char>)> {
    seq![
        (21u16, "FTP"@),
        (22u16, "SSH"@),
        (23u16, "Telnet"@),
        (25u16, "SMTP"@),
        (53u16, "DNS"@),
        (80u16, "HTTP"@),
        (110u16, "POP3"@),
        (135u16, "RPC"@),
        (139u16, "NetBIOS"@),
        (143u16, "IMAP"@),
        (443u16, "HTTPS"@),
        (445u16, "SMB"@),
        (993u16, "IMAPS"@),
        (995u16, "POP3S"@),
        (3306u16, "MySQL"@),
        (3389u16, "RDP"@),
        (5432u16, "PostgreSQL"@),
        (5900u16, "VNC"@),
        (8080u16, "HTTP-Alt"@),
        (8443u16, "HTTPS-Alt"@),
    ]
}

pub open spec fn open_title(name: Seq<char>, port: u16) -> Seq<char> {
    name + " Open (port "@ + decimal(port as nat) + ")"@
}

/// The assessment of an open port.
pub open spec fn open_port_finding(port: u16, service: Seq<char>) -> FindingView {
    if port == 21 {
        (
            "MEDIUM"@,
            open_title("FTP"@, port),
            "FTP transmits credentials in plaintext."@,
            Some("Use SFTP (port 22) instead."@),
        )
    } else if port == 22 {
        (
            "INFO"@,
            open_title("SSH"@, port),
            "SSH is encrypted but ensure strong auth."@,
            Some("Use key-based auth; disable password login."@),
        )
    } else if port == 23 {
        (
            "HIGH"@,
            open_title("Telnet"@, port),
            "Telnet sends all data in plaintext including passwords."@,
            Some("Disable Telnet; use SSH instead."@),
        )
    } else if port == 445 {
        (
            "HIGH"@,
            open_title("SMB"@, port),
            "SMB exposed \u{2014} ransomware target (e.g., WannaCry)."@,
            Some("Restrict SMB to internal network only."@),
        )
    } else if port == 3389 {
        (
            "HIGH"@,
            open_title("RDP"@, port),
            "Remote Desktop exposed \u{2014} brute-force risk."@,
            Some("Use VPN to access RDP; never expose directly."@),
        )
    } else if port == 5900 {
        (
            "MEDIUM"@,
            open_title("VNC"@, port),
            "VNC may transmit unencrypted screen data."@,
            Some("Use SSH tunneling for VNC access."@),
        )
    } else if port == 3306 {
        (
            "MEDIUM"@,
            open_title("MySQL"@, port),
            "Database directly accessible \u{2014} data leak risk."@,
            Some("Bind MySQL to localhost; use SSH tunnel for access."@),
        )
    } else if port == 5432 {
        (
            "MEDIUM"@,
            open_title("PostgreSQL"@, port),
            "Database directly accessible \u{2014} data leak risk."@,
            Some("Bind PostgreSQL to localhost; use SSH tunnel for access."@),
        )
    } else if port == 80 {
        (
            "INFO"@,
            open_title("HTTP"@, port),
            "Unencrypted web traffic \u{2014} should redirect to HTTPS."@,
            None,
        )
    } else if port == 443 {
        ("GOOD"@, open_title("HTTPS"@, port), "Encrypted web traffic \u{2014} good."@, None)
    } else {
        (
            "INFO"@,
            open_title(service, port),
            "Port "@ + decimal(port as nat) + " ("@ + service + ") is accessible."@,
            Some("Verify this service is intentional."@),
        )
    }
}

/// Open ports, findings, closed count and timed-out count after `ps`.
pub type ScanTally = (Seq<(u16, Seq<char>)>, Seq<FindingView>, nat, nat);

pub open spec fn scan_step(t: ScanTally, p: ProbeView) -> ScanTally {
    match p.1 {
        Ok((ProbeStatus::Open, service)) => (
            t.0.push((p.0, service)),
            t.1.push(open_port_finding(p.0, service)),
            t.2,
            t.3,
        ),
        Ok((ProbeStatus::Closed, _)) => (t.0, t.1, t.2 + 1, t.3),
        Ok((ProbeStatus::TimedOut, service)) => (
            t.0,
            t.1.push(
                (
                    "LOW"@,
                    "Port "@ + decimal(p.0 as nat) + " ("@ + service + ") Timed Out"@,
                    "Connection timed out \u{2014} possibly filtered by firewall."@,
                    None,
                ),
            ),
            t.2,
            t.3 + 1,
        ),
        Err(e) => (
            t.0,
            t.1.push(("LOW"@, "Scan Error on port "@ + decimal(p.0 as nat), e, None)),
            t.2,
            t.3,
        ),
    }
}

pub open spec fn scan_tally(ps: Seq<ProbeView>) -> ScanTally
    decreases ps.len(),
{
    if ps.len() == 0 {
        (Seq::empty(), Seq::empty(), 0, 0)
    } else {
        scan_step(scan_tally(ps.drop_last()), ps.last())
    }
}

pub open spec fn none_open_finding() -> FindingView {
    (
        "GOOD"@,
        "No Common Ports Open"@,
        "No commonly exploitable ports were reachable."@,
        Some("Continue regular port scans."@),
    )
}

// ---------------------------------------------------------------------------
// Laws
// ---------------------------------------------------------------------------

/// The ports with advice of their own.
pub open spec fn has_own_advice(port: u16) -> bool {
    port == 21 || port == 22 || port == 23 || port == 445 || port == 3389 || port == 5900 || port
        == 3306 || port == 5432 || port == 80 || port == 443
}

/// An open port with advice of its own is assessed the same whatever the
/// service is called, with a fixed severity: HIGH for Telnet (23, sent in
/// plaintext), SMB (445) and RDP (3389); MEDIUM for FTP (21), VNC (5900),
/// MySQL (3306) and PostgreSQL (5432); INFO for SSH (22) and HTTP (80); GOOD
/// for HTTPS (443). Any other open port is INFO and named by its service.
pub proof fn law_open_port_assessment(port: u16, service: Seq<char>, other: Seq<char>)
    ensures
        has_own_advice(port) ==> open_port_finding(port, service) == open_port_finding(
            port,
            other,
        ),
        port == 23 ==> open_port_finding(port, service) == (
            "HIGH"@,
            "Telnet Open (port 23)"@,
            "Telnet sends all data in plaintext including passwords."@,
            Some("Disable Telnet; use SSH instead."@),
        ),
        (port == 445 || port == 3389) ==> open_port_finding(port, service).0 == "HIGH"@,
        (port == 21 || port == 5900 || port == 3306 || port == 5432) ==> open_port_finding(
            port,
            service,
        ).0 == "MEDIUM"@,
        (port == 22 || port == 80) ==> open_port_finding(port, service).0 == "INFO"@,
        port == 443 ==> open_port_finding(port, service).0 == "GOOD"@,
        !has_own_advice(port) ==> open_port_finding(port, service).0 == "INFO"@
            && open_port_finding(port, service).1 == service + " Open (port "@ + decimal(
            port as nat,
        ) + ")"@,
{
    reveal_strlit("Telnet");
    reveal_strlit(" Open (port ");
    reveal_strlit(")");
    reveal_strlit("Telnet Open (port 23)");
    reveal_with_fuel(decimal, 3);
    if port == 23 {
        assert(decimal(23) =~= seq!['2', '3']);
        assert(open_title("Telnet"@, port) =~= "Telnet Open (port 23)"@);
    }
}

/// Each probe counts at most once: open, closed and timed-out ports together
/// are no more than the probes, and every probe that is not closed adds
/// exactly one finding.
pub proof fn law_probes_accounted(ps: Seq<ProbeView>)
    ensures
        ({
            let t = scan_tally(ps);
            &&& t.0.len() + t.2 + t.3 <= ps.len()
            &&& t.1.len() + t.2 == ps.len()
        }),
    decreases ps.len(),
{
    if ps.len() > 0 {
        law_probes_accounted(ps.drop_last());
    }
}

// ---------------------------------------------------------------------------
// Executable
// ---------------------------------------------------------------------------

/// The ports to scan, with their services.
pub fn common_port_list() -> (v: Vec<(u16, String)>)
    ensures
        ports_view(v@) == common_ports(),
{
    let mut v: Vec<(u16, String)> = Vec::new();
    v.push((21, text("FTP")));
    v.push((22, text("SSH")));
    v.push((23, text("Telnet")));
    v.push((25, text("SMTP")));
    v.push((53, text("DNS")));
    v.push((80, text("HTTP")));
    v.push((110, text("POP3")));
    v.push((135, text("RPC")));
    v.push((139, text("NetBIOS")));
    v.push((143, text("IMAP")));
    v.push((443, text("HTTPS")));
    v.push((445, text("SMB")));
    v.push((993, text("IMAPS")));
    v.push((995, text("POP3S")));
    v.push((3306, text("MySQL")));
    v.push((3389, text("RDP")));
    v.push((5432, text("PostgreSQL")));
    v.push((5900, text("VNC")));
    v.push((8080, text("HTTP-Alt")));
    v.push((8443, text("HTTPS-Alt")));
    assert(ports_view(v@) =~= common_ports());
    v
}

/// What to do for `target`: trimmed; when nothing is left the scan fails at
/// once, else each common port is probed.
pub fn plan_port_scan(target: &str) -> (p: PortScanPlan)
    ensures
        trim(target@).len() == 0 ==> (p matches PortScanPlan::Finished(r) && !r.success
            && r.message@ == "Target is empty"@ && r.data is NoFindings),
        trim(target@).len() > 0 ==> (p matches PortScanPlan::Probe { target: t, ports } && t@
            == trim(target@) && ports_view(ports@) == common_ports()),
{
    let t = trim_str(target);
    if t.as_str().is_empty() {
        return PortScanPlan::Finished(
            AuditResultEnvelope {
                success: false,
                message: text("Target is empty"),
                data: AuditData::NoFindings,
            },
        );
    }
    PortScanPlan::Probe { target: t, ports: common_port_list() }
}

fn title_open(name: &str, port: u16) -> (r: String)
    ensures
        r@ == open_title(name@, port),
{
    let mut r = cat(name, " Open (port ");
    push_decimal(&mut r, port as u64);
    push_str(&mut r, ")");
    r
}

/// The assessment of open port `port`, whose service is `service`.
pub fn assess_open_port(port: u16, service: &str) -> (f: Finding)
    ensures
        f@ == open_port_finding(port, service@),
{
    if port == 21 {
        advise(
            "MEDIUM",
            title_open("FTP", port),
            text("FTP transmits credentials in plaintext."),
            "Use SFTP (port 22) instead.",
        )
    } else if port == 22 {
        advise(
            "INFO",
            title_open("SSH", port),
            text("SSH is encrypted but ensure strong auth."),
            "Use key-based auth; disable password login.",
        )
    } else if port == 23 {
        advise(
            "HIGH",
            title_open("Telnet", port),
            text("Telnet sends all data in plaintext including passwords."),
            "Disable Telnet; use SSH instead.",
        )
    } else if port == 445 {
        advise(
            "HIGH",
            title_open("SMB", port),
            text("SMB exposed \u{2014} ransomware target (e.g., WannaCry)."),
            "Restrict SMB to internal network only.",
        )
    } else if port == 3389 {
        advise(
            "HIGH",
            title_open("RDP", port),
            text("Remote Desktop exposed \u{2014} brute-force risk."),
            "Use VPN to access RDP; never expose directly.",
        )
    } else if port == 5900 {
        advise(
            "MEDIUM",
            title_open("VNC", port),
            text("VNC may transmit unencrypted screen data."),
            "Use SSH tunneling for VNC access.",
        )
    } else if port == 3306 {
        advise(
            "MEDIUM",
            title_open("MySQL", port),
            text("Database directly accessible \u{2014} data leak risk."),
            "Bind MySQL to localhost; use SSH tunnel for access.",
        )
    } else if port == 5432 {
        advise(
            "MEDIUM",
            title_open("PostgreSQL", port),
            text("Database directly accessible \u{2014} data leak risk."),
            "Bind PostgreSQL to localhost; use SSH tunnel for access.",
        )
    } else if port == 80 {
        note(
            "INFO",
            title_open("HTTP", port),
            text("Unencrypted web traffic \u{2014} should redirect to HTTPS."),
        )
    } else if port == 443 {
        note("GOOD", title_open("HTTPS", port), text("Encrypted web traffic \u{2014} good."))
    } else {
        let mut description = text("Port ");
        push_decimal(&mut description, port as u64);
        push_str(&mut description, " (");
        push_str(&mut description, service);
        push_str(&mut description, ") is accessible.");
        advise(
            "INFO",
            title_open(service, port),
            description,
            "Verify this service is intentional.",
        )
    }
}

/// The scan result for `target` once every probe has reported, in the
/// order of `probes`.
pub fn port_scan_report(target: String, probes: Vec<PortProbe>) -> (r: AuditResultEnvelope)
    ensures
        ({
            let t = scan_tally(probes_view(probes@));
            let f = if t.0.len() == 0 {
                t.1.push(none_open_finding())
            } else {
                t.1
            };
            &&& r.success
            &&& r.message@ == "Port scan complete: "@ + decimal(t.0.len()) + " open, "@ + decimal(
                t.2,
            ) + " closed, "@ + decimal(t.3) + " timed out"@
            &&& r.data matches AuditData::Ports(d) && d.target@ == target@ && ports_view(
                d.open_ports@,
            ) == t.0 && findings_view(d.findings@) == f && d.open == t.0.len() && d.closed == t.2
                && d.timeout == t.3
        }),
{
    let ghost ps = probes_view(probes@);
    let mut open_ports: Vec<(u16, String)> = Vec::new();
    let mut findings: Vec<Finding> = Vec::new();
    let mut closed: usize = 0;
    let mut timed_out: usize = 0;
    let mut i: usize = 0;
    assert(ps.take(0) =~= Seq::<ProbeView>::empty());
    while i < probes.len()
        invariant
            i <= probes.len(),
            ps == probes_view(probes@),
            (ports_view(open_ports@), findings_view(findings@), closed as nat, timed_out as nat)
                == scan_tally(ps.take(i as int)),
            closed <= i,
            timed_out <= i,
        decreases probes.len() - i,
    {
        proof {
            assert(ps.take(i + 1).drop_last() =~= ps.take(i as int));
            assert(ps.take(i + 1).last() == probes@[i as int]@);
        }
        let port: u16 = probes[i].port;
        let ghost before_ports = ports_view(open_ports@);
        let ghost before_findings = findings_view(findings@);
        match &probes[i].outcome {
            Ok((ProbeStatus::Open, service)) => {
                open_ports.push((port, service.clone()));
                findings.push(assess_open_port(port, service.as_str()));
                assert(ports_view(open_ports@) =~= before_ports.push((port, service@)));
                assert(findings_view(findings@) =~= before_findings.push(
                    open_port_finding(port, service@),
                ));
            },
            Ok((ProbeStatus::Closed, _)) => {
                closed = closed + 1;
            },
            Ok((ProbeStatus::TimedOut, service)) => {
                timed_out = timed_out + 1;
                let mut title = text("Port ");
                push_decimal(&mut title, port as u64);
                push_str(&mut title, " (");
                push_str(&mut title, service.as_str());
                push_str(&mut title, ") Timed Out");
                findings.push(
                    note(
                        "LOW",
                        title,
                        text("Connection timed out \u{2014} possibly filtered by firewall."),
                    ),
                );
                assert(findings_view(findings@) =~= before_findings.push(
                    scan_step(scan_tally(ps.take(i as int)), ps[i as int]).1.last(),
                ));
            },
            Err(e) => {
                let mut title = text("Scan Error on port ");
                push_decimal(&mut title, port as u64);
                findings.push(note("LOW", title, e.clone()));
                assert(findings_view(findings@) =~= before_findings.push(
                    scan_step(scan_tally(ps.take(i as int)), ps[i as int]).1.last(),
                ));
            },
        }
        i = i + 1;
    }
    assert(ps.take(probes.len() as int) =~= ps);
    if open_ports.len() == 0 {
        findings.push(
            advise(
                "GOOD",
                text("No Common Ports Open"),
                text("No commonly exploitable ports were reachable."),
                "Continue regular port scans.",
            ),
        );
    }
    let mut message = text("Port scan complete: ");
    push_decimal(&mut message, open_ports.len() as u64);
    push_str(&mut message, " open, ");
    push_decimal(&mut message, closed as u64);
    push_str(&mut message, " closed, ");
    push_decimal(&mut message, timed_out as u64);
    push_str(&mut message, " timed out");
    let open: usize = open_ports.len();
    AuditResultEnvelope {
        success: true,
        message,
        data: AuditData::Ports(
            PortScanData { target, open_ports, findings, open, closed, timeout: timed_out },
        ),
    }
}

} // verus!
