//! TLS audit of a host: whether an HTTPS connection succeeds and which
//! protective response headers the server sends, scored out of 100. The
//! connection is made by the caller.
use crate::http_status::{header_text_or_empty, header_text_or_empty_chars, status_display, status_line};
use crate::text::{chars_of, contains_chars, contains_str, decimal, has_infix, push_decimal, push_str};
use vstd::prelude::*;
use vstd::string::*;

verus! {

pub struct SslAuditReport {
    pub host: String,
    pub port: u16,
    pub score: u8,
    pub findings: Vec<Finding>,
}

pub struct Finding {
    pub check: String,
    pub status: String,
    pub detail: String,
}

pub struct SslAuditInput {
    pub host: String,
    pub port: Option<u16>,
}

/// A finding as three texts: check, status, detail.
pub type FindingView = (Seq<char>, Seq<char>, Seq<char>);

impl View for Finding {
    type V = FindingView;

    open spec fn view(&self) -> FindingView {
        (self.check@, self.status@, self.detail@)
    }
}

pub open spec fn findings_view(v: Seq<Finding>) -> Seq<FindingView> {
    v.map_values(|f: Finding| f@)
}

/// The first value of each response header that the audit reads, as bytes.
pub struct SecurityHeaders {
    pub strict_transport_security: Option<Vec<u8>>,
    pub x_content_type_options: Option<Vec<u8>>,
    pub x_frame_options: Option<Vec<u8>>,
    pub content_security_policy: Option<Vec<u8>>,
}

/// A response received over TLS.
pub struct HttpsResponse {
    pub status: u16,
    pub headers: SecurityHeaders,
}

/// What to do for a requested host and port.
pub enum SslCheckPlan {
    /// The audit is over before any connection: this is the report.
    Finished(SslAuditReport),
    /// Send a GET request to `url`.
    Connect { url: String, port: u16 },
}

pub open spec fn effective_port(port: Option<u16>) -> u16 {
    match port {
        Some(p) => p,
        None => 443,
    }
}

pub open spec fn target_url(host: Seq<char>, port: u16) -> Seq<char> {
    "https://"@ + host + ":"@ + decimal(port as nat)
}

pub open spec fn empty_host_finding() -> FindingView {
    ("Input Validation"@, "FAIL"@, "No host provided for audit"@)
}

pub open spec fn nosniff_set(h: SecurityHeaders) -> bool {
    match h.x_content_type_options {
        Some(v) => header_text_or_empty(v@) == "nosniff"@,
        None => false,
    }
}

pub open spec fn frame_protected(h: SecurityHeaders) -> bool {
    h.x_frame_options is Some || match h.content_security_policy {
        Some(v) => has_infix(header_text_or_empty(v@), "frame"@),
        None => false,
    }
}

/// The findings for a received response whose status renders as
/// `status_text`, and the points they cost.
pub open spec fn response_outcome(status_text: Seq<char>, h: SecurityHeaders) -> (
    Seq<FindingView>,
    nat,
) {
    let connection = (
        "TLS Connection"@,
        "PASS"@,
        "Successfully established TLS connection. HTTP status: "@ + status_text,
    );
    let hsts = if h.strict_transport_security is Some {
        ("HSTS"@, "PASS"@, "Strict-Transport-Security header is present"@)
    } else {
        (
            "HSTS"@,
            "WARN"@,
            "Missing Strict-Transport-Security header. Recommend adding HSTS with max-age >= 31536000"@,
        )
    };
    let nosniff = if nosniff_set(h) {
        ("X-Content-Type-Options"@, "PASS"@, "X-Content-Type-Options: nosniff is set"@)
    } else {
        (
            "X-Content-Type-Options"@,
            "INFO"@,
            "X-Content-Type-Options header not set or not 'nosniff'"@,
        )
    };
    let frames = if frame_protected(h) {
        (
            "Clickjacking Protection"@,
            "PASS"@,
            "Frame restriction headers detected (X-Frame-Options or CSP frame-src)"@,
        )
    } else {
        ("Clickjacking Protection"@, "WARN"@, "No clickjacking protection headers detected"@)
    };
    (
        seq![connection, hsts, nosniff, frames],
        (if h.strict_transport_security is Some {
            0nat
        } else {
            10nat
        }) + (if frame_protected(h) {
            0nat
        } else {
            5nat
        }),
    )
}

/// The findings when the connection failed with message `msg`; they cost 50 points.
pub open spec fn failure_findings(msg: Seq<char>) -> Seq<FindingView> {
    seq![
        if has_infix(msg, "certificate"@) || has_infix(msg, "ssl"@) || has_infix(msg, "tls"@) {
            (
                "TLS Connection"@,
                "FAIL"@,
                "Certificate error: "@ + msg
                    + ". Certificate may be expired, self-signed, or misconfigured."@,
            )
        } else if has_infix(msg, "timeout"@) {
            (
                "TLS Connection"@,
                "FAIL"@,
                "Connection timed out. Server may be unreachable or firewall is blocking port 443"@,
            )
        } else {
            ("TLS Connection"@, "FAIL"@, "Failed to connect: "@ + msg)
        },
        ("HSTS"@, "SKIP"@, "Could not check headers\u{2014}connection failed"@),
    ]
}

pub open spec fn closing_findings() -> Seq<FindingView> {
    seq![
        (
            "TLS Version"@,
            "INFO"@,
            "Use specialized tools (testssl.sh, SSL Labs) to verify TLS 1.2+ and cipher strength"@,
        ),
        (
            "Certificate Expiry"@,
            "INFO"@,
            "Use 'openssl s_client -connect HOST:443 -servername HOST' to check expiry date"@,
        ),
    ]
}

// ---------------------------------------------------------------------------
// Laws
// ---------------------------------------------------------------------------

/// A failed connection whose message mentions `certificate`, `ssl` or `tls`
/// is reported as a certificate error quoting the message; otherwise a
/// message mentioning `timeout` is reported as a time-out, and any other as
/// a failure to connect quoting the message. The headers are then skipped.
pub proof fn law_failure_report(msg: Seq<char>)
    ensures
        failure_findings(msg).len() == 2,
        failure_findings(msg)[1].1 == "SKIP"@,
        (has_infix(msg, "certificate"@) || has_infix(msg, "ssl"@) || has_infix(msg, "tls"@))
            ==> failure_findings(msg)[0].2 == "Certificate error: "@ + msg
            + ". Certificate may be expired, self-signed, or misconfigured."@,
        !(has_infix(msg, "certificate"@) || has_infix(msg, "ssl"@) || has_infix(msg, "tls"@))
            && !has_infix(msg, "timeout"@) ==> failure_findings(msg)[0].2 == "Failed to connect: "@
            + msg,
        failure_findings(msg)[0].1 == "FAIL"@,
{
}

/// An answered request scores between 85 and 100, and 100 exactly when the
/// server sends HSTS and frame protection; a failed one scores 50.
pub proof fn law_response_score_range(status_text: Seq<char>, h: SecurityHeaders)
    ensures
        85 <= 100 - response_outcome(status_text, h).1 <= 100,
        response_outcome(status_text, h).1 == 0 <==> (h.strict_transport_security is Some
            && frame_protected(h)),
{
}

// ---------------------------------------------------------------------------
// Executable
// ---------------------------------------------------------------------------

fn finding(check: &str, status: &str, detail: String) -> (f: Finding)
    ensures
        f@ == (check@, status@, detail@),
{
    Finding { check: String::from_str(check), status: String::from_str(status), detail }
}

fn text(s: &str) -> (r: String)
    ensures
        r@ == s@,
{
    String::from_str(s)
}

/// What to do for `host` and `port` (443 when none is given): with no host
/// the audit ends with a zero score, else the connection to the HTTPS URL
/// of the host and port follows.
pub fn plan_ssl_certificate_check(host: &str, port: Option<u16>) -> (p: SslCheckPlan)
    ensures
        host@.len() == 0 ==> (p matches SslCheckPlan::Finished(r) && r.host@ == "unknown"@
            && r.port == effective_port(port) && r.score == 0 && findings_view(r.findings@)
            == seq![empty_host_finding()]),
        host@.len() > 0 ==> (p matches SslCheckPlan::Connect { url, port: q } && url@
            == target_url(host@, effective_port(port)) && q == effective_port(port)),
{
    let port: u16 = match port {
        Some(p) => p,
        None => 443,
    };
    if host.is_empty() {
        let mut findings = Vec::new();
        findings.push(finding("Input Validation", "FAIL", text("No host provided for audit")));
        assert(findings_view(findings@) =~= seq![empty_host_finding()]);
        return SslCheckPlan::Finished(
            SslAuditReport { host: text("unknown"), port, score: 0, findings },
        );
    }
    let mut url = text("https://");
    push_str(&mut url, host);
    push_str(&mut url, ":");
    push_decimal(&mut url, port as u64);
    SslCheckPlan::Connect { url, port }
}

fn header_equals(v: &Vec<u8>, s: &str) -> (r: bool)
    ensures
        r == (header_text_or_empty(v@) == s@),
{
    let t = header_text_or_empty_chars(v);
    let w = chars_of(s);
    if t.len() != w.len() {
        return false;
    }
    let mut i: usize = 0;
    while i < t.len()
        invariant
            t.len() == w.len(),
            t@ == header_text_or_empty(v@),
            w@ == s@,
            i <= t.len(),
            forall|k: int| 0 <= k < i ==> t@[k] == w@[k],
        decreases t.len() - i,
    {
        if t[i] != w[i] {
            assert(t@[i as int] != w@[i as int]);
            return false;
        }
        i = i + 1;
    }
    assert(t@ =~= w@);
    true
}

fn header_contains(v: &Vec<u8>, s: &str) -> (r: bool)
    ensures
        r == has_infix(header_text_or_empty(v@), s@),
{
    let t = header_text_or_empty_chars(v);
    let w = chars_of(s);
    contains_chars(&t, &w)
}

/// The findings for a response whose status renders as `status_text`, and
/// the points they cost.
pub fn response_findings(status_text: String, h: &SecurityHeaders) -> (r: (Vec<Finding>, u8))
    ensures
        (findings_view(r.0@), r.1 as nat) == response_outcome(status_text@, *h),
{
    let mut v: Vec<Finding> = Vec::new();
    let mut cost: u8 = 0;
    let mut detail = text("Successfully established TLS connection. HTTP status: ");
    push_str(&mut detail, status_text.as_str());
    v.push(finding("TLS Connection", "PASS", detail));
    if h.strict_transport_security.is_some() {
        v.push(finding("HSTS", "PASS", text("Strict-Transport-Security header is present")));
    } else {
        cost = cost + 10;
        v.push(
            finding(
                "HSTS",
                "WARN",
                text(
                    "Missing Strict-Transport-Security header. Recommend adding HSTS with max-age >= 31536000",
                ),
            ),
        );
    }
    let nosniff = match &h.x_content_type_options {
        Some(val) => header_equals(val, "nosniff"),
        None => false,
    };
    if nosniff {
        v.push(
            finding(
                "X-Content-Type-Options",
                "PASS",
                text("X-Content-Type-Options: nosniff is set"),
            ),
        );
    } else {
        v.push(
            finding(
                "X-Content-Type-Options",
                "INFO",
                text("X-Content-Type-Options header not set or not 'nosniff'"),
            ),
        );
    }
    let csp_frame = match &h.content_security_policy {
        Some(val) => header_contains(val, "frame"),
        None => false,
    };
    if h.x_frame_options.is_some() || csp_frame {
        v.push(
            finding(
                "Clickjacking Protection",
                "PASS",
                text("Frame restriction headers detected (X-Frame-Options or CSP frame-src)"),
            ),
        );
    } else {
        cost = cost + 5;
        v.push(
            finding(
                "Clickjacking Protection",
                "WARN",
                text("No clickjacking protection headers detected"),
            ),
        );
    }
    assert(findings_view(v@) =~= response_outcome(status_text@, *h).0);
    (v, cost)
}

/// The findings when the connection failed with message `msg`.
pub fn failure_findings_for(msg: &str) -> (v: Vec<Finding>)
    ensures
        findings_view(v@) == failure_findings(msg@),
{
    let mut v: Vec<Finding> = Vec::new();
    if contains_str(msg, "certificate") || contains_str(msg, "ssl") || contains_str(msg, "tls") {
        let mut detail = text("Certificate error: ");
        push_str(&mut detail, msg);
        push_str(&mut detail, ". Certificate may be expired, self-signed, or misconfigured.");
        v.push(finding("TLS Connection", "FAIL", detail));
    } else if contains_str(msg, "timeout") {
        v.push(
            finding(
                "TLS Connection",
                "FAIL",
                text(
                    "Connection timed out. Server may be unreachable or firewall is blocking port 443",
                ),
            ),
        );
    } else {
        let mut detail = text("Failed to connect: ");
        push_str(&mut detail, msg);
        v.push(finding("TLS Connection", "FAIL", detail));
    }
    v.push(finding("HSTS", "SKIP", text("Could not check headers\u{2014}connection failed")));
    assert(findings_view(v@) =~= failure_findings(msg@));
    v
}

/// The report once the connection has been tried: a response, or the
/// error's message. The score starts at 100; a failed connection costs 50
/// points, a response without HSTS 10 and one without frame protection 5.
pub fn ssl_certificate_report(host: String, port: u16, outcome: Result<HttpsResponse, String>) -> (r:
    SslAuditReport)
    ensures
        r.host@ == host@,
        r.port == port,
        outcome matches Ok(resp) ==> r.score == 100 - response_outcome(
            status_display(resp.status),
            resp.headers,
        ).1 && findings_view(r.findings@) == response_outcome(
            status_display(resp.status),
            resp.headers,
        ).0 + closing_findings(),
        outcome matches Err(msg) ==> r.score == 50 && findings_view(r.findings@)
            == failure_findings(msg@) + closing_findings(),
{
    let mut findings: Vec<Finding>;
    let score: u8;
    match outcome {
        Ok(resp) => {
            let status_text = status_line(resp.status);
            let (v, cost) = response_findings(status_text, &resp.headers);
            findings = v;
            score = 100 - cost;
        },
        Err(msg) => {
            findings = failure_findings_for(msg.as_str());
            score = 100 - 40 - 10;
        },
    }
    let ghost before = findings_view(findings@);
    findings.push(
        finding(
            "TLS Version",
            "INFO",
            text(
                "Use specialized tools (testssl.sh, SSL Labs) to verify TLS 1.2+ and cipher strength",
            ),
        ),
    );
    findings.push(
        finding(
            "Certificate Expiry",
            "INFO",
            text("Use 'openssl s_client -connect HOST:443 -servername HOST' to check expiry date"),
        ),
    );
    assert(findings_view(findings@) =~= before + closing_findings());
    SslAuditReport { host, port, score, findings }
}

} // verus!
