//! SSL/TLS audit of a URL: whether the certificate is accepted, how the
//! server answers, and whether plain HTTP is redirected; rated GOOD, FAIR or
//! POOR. The HTTPS client and its requests belong to the caller.
use crate::backend::findings::{
    advise, cat, cat3, findings_view, note, text, AuditData, AuditResultEnvelope, Finding,
    FindingView, SslAuditData,
};
use crate::http_status::{is_redirection, is_success, status_display, status_line};
use crate::text::{
    contains_str, has_infix, has_prefix, lowercase, replace_all, replace_str, starts_with_str,
    to_lowercase, trim, trim_str,
};
use vstd::prelude::*;
use vstd::string::*;

verus! {

/// The URLs of an SSL audit.
pub struct SslTargets {
    /// The HTTPS URL to request.
    pub url: String,
    /// The same URL over plain HTTP, to see whether it redirects.
    pub http_url: String,
}

/// What the requests brought back.
pub enum TlsProbe {
    /// The HTTPS request was answered with `status`; the plain HTTP request
    /// was answered with `http_status`, or failed.
    Responded { status: u16, http_status: Option<u16> },
    /// The HTTPS request failed with this error message.
    Failed { error: String },
}

pub open spec fn https_url(target: Seq<char>) -> Seq<char> {
    if has_prefix(target, "https://"@) {
        target
    } else {
        "https://"@ + target
    }
}

/// The findings for an answered request whose status renders as
/// `status_text`, and the points they earn.
pub open spec fn responded_outcome(status_text: Seq<char>, status: u16, http_status: Option<u16>) -> (
    Seq<FindingView>,
    int,
) {
    let answer = if is_success(status) {
        (
            "INFO"@,
            "Server Responded Successfully"@,
            "HTTP status "@ + status_text,
            None::<Seq<char>>,
        )
    } else {
        (
            "LOW"@,
            "Server Returned Non-Success Status"@,
            "HTTP "@ + status_text + " (still acceptable for SSL test)"@,
            None::<Seq<char>>,
        )
    };
    let certificate = (
        "GOOD"@,
        "Valid TLS Certificate Presented"@,
        "Certificate was successfully verified by the TLS stack."@,
        None::<Seq<char>>,
    );
    let base: int = (if is_success(status) {
        1int
    } else {
        0int
    }) + 3;
    match http_status {
        Some(code) => if is_redirection(code) {
            (
                seq![
                    answer,
                    certificate,
                    (
                        "GOOD"@,
                        "HTTP Redirects to HTTPS"@,
                        "Plain HTTP traffic is redirected to HTTPS."@,
                        None,
                    ),
                ],
                base + 1,
            )
        } else {
            (
                seq![
                    answer,
                    certificate,
                    (
                        "MEDIUM"@,
                        "HTTP Not Redirecting to HTTPS"@,
                        "Site serves content over plain HTTP."@,
                        Some("Configure HTTP->HTTPS redirect."@),
                    ),
                ],
                base,
            )
        },
        None => (seq![answer, certificate], base),
    }
}

/// The finding for a failed request with message `error`, whose lowercase
/// text is `lower`, to `url`.
pub open spec fn failed_finding(error: Seq<char>, lower: Seq<char>, url: Seq<char>) -> FindingView {
    if has_infix(lower, "certificate"@) || has_infix(lower, "expired"@) || has_infix(
        lower,
        "not after"@,
    ) {
        (
            "CRITICAL"@,
            "SSL Certificate Verification Failed"@,
            "Certificate is invalid, expired, or self-signed: "@ + error,
            Some("Renew or replace the SSL certificate."@),
        )
    } else if has_infix(lower, "timeout"@) || has_infix(lower, "timed out"@) {
        (
            "HIGH"@,
            "Connection Timed Out"@,
            "Server at "@ + url + " did not respond in time."@,
            Some("Check server availability and firewall rules."@),
        )
    } else {
        (
            "MEDIUM"@,
            "Connection Failed"@,
            error,
            Some("Verify the URL is correct and the server is online."@),
        )
    }
}

pub open spec fn ssl_rating(score: int) -> Seq<char> {
    if score >= 5 {
        "GOOD"@
    } else if score >= 3 {
        "FAIR"@
    } else {
        "POOR"@
    }
}

// ---------------------------------------------------------------------------
// Laws
// ---------------------------------------------------------------------------

/// A failed request is reported as a CRITICAL certificate failure exactly
/// when its lowercased message mentions a certificate, an expiry or a
/// "not after" date; otherwise as a HIGH time-out when it mentions one, and
/// as a MEDIUM connection failure when it mentions neither.
pub proof fn law_failed_request_severity(error: Seq<char>, lower: Seq<char>, url: Seq<char>)
    ensures
        (has_infix(lower, "certificate"@) || has_infix(lower, "expired"@) || has_infix(
            lower,
            "not after"@,
        )) <==> failed_finding(error, lower, url).0 == "CRITICAL"@,
        has_infix(lower, "certificate"@) ==> failed_finding(error, lower, url).1
            == "SSL Certificate Verification Failed"@ && failed_finding(error, lower, url).2
            == "Certificate is invalid, expired, or self-signed: "@ + error,
        failed_finding(error, lower, url).0 == "HIGH"@ <==> (!has_infix(lower, "certificate"@)
            && !has_infix(lower, "expired"@) && !has_infix(lower, "not after"@) && (has_infix(
            lower,
            "timeout"@,
        ) || has_infix(lower, "timed out"@))),
{
    reveal_strlit("CRITICAL");
    reveal_strlit("HIGH");
    reveal_strlit("MEDIUM");
    assert("CRITICAL"@[0] != "HIGH"@[0]);
    assert("CRITICAL"@[0] != "MEDIUM"@[0]);
    assert("HIGH"@[0] != "MEDIUM"@[0]);
}

/// An answered request earns 3 to 5 points, and 5 (GOOD) exactly when the
/// status is a success and plain HTTP redirects; a failed one earns none.
pub proof fn law_ssl_points(status_text: Seq<char>, status: u16, http_status: Option<u16>)
    ensures
        3 <= responded_outcome(status_text, status, http_status).1 <= 5,
        responded_outcome(status_text, status, http_status).1 == 5 <==> (is_success(status)
            && (http_status matches Some(c) && is_redirection(c))),
{
}

// ---------------------------------------------------------------------------
// Executable
// ---------------------------------------------------------------------------

/// The URLs for `target`: trimmed, made HTTPS when it is not, and its plain
/// HTTP form with every `https://` replaced by `http://`.
pub fn ssl_targets(target: &str) -> (t: SslTargets)
    ensures
        t.url@ == https_url(trim(target@)),
        t.http_url@ == replace_all(https_url(trim(target@)), "https://"@, "http://"@),
{
    let trimmed = trim_str(target);
    let url = if starts_with_str(trimmed.as_str(), "https://") {
        trimmed
    } else {
        cat("https://", trimmed.as_str())
    };
    proof {
        reveal_strlit("https://");
    }
    let http_url = replace_str(url.as_str(), "https://", "http://");
    SslTargets { url, http_url }
}

/// The result when no HTTPS client can be built.
pub fn client_failure(error: String) -> (r: AuditResultEnvelope)
    ensures
        !r.success,
        r.message@ == "Failed to build HTTPS client"@,
        r.data matches AuditData::Error { error: e } && e@ == error@,
{
    AuditResultEnvelope {
        success: false,
        message: text("Failed to build HTTPS client"),
        data: AuditData::Error { error },
    }
}

/// The findings for an answered request whose status renders as `status_text`.
pub fn responded_findings(status_text: &str, status: u16, http_status: Option<u16>) -> (r: (
    Vec<Finding>,
    i32,
))
    ensures
        (findings_view(r.0@), r.1 as int) == responded_outcome(status_text@, status, http_status),
{
    let mut v: Vec<Finding> = Vec::new();
    let mut score: i32 = 0;
    if 200 <= status && status < 300 {
        v.push(
            note("INFO", text("Server Responded Successfully"), cat("HTTP status ", status_text)),
        );
        score = score + 1;
    } else {
        v.push(
            note(
                "LOW",
                text("Server Returned Non-Success Status"),
                cat3("HTTP ", status_text, " (still acceptable for SSL test)"),
            ),
        );
    }
    v.push(
        note(
            "GOOD",
            text("Valid TLS Certificate Presented"),
            text("Certificate was successfully verified by the TLS stack."),
        ),
    );
    score = score + 3;
    match http_status {
        Some(code) => {
            if 300 <= code && code < 400 {
                v.push(
                    note(
                        "GOOD",
                        text("HTTP Redirects to HTTPS"),
                        text("Plain HTTP traffic is redirected to HTTPS."),
                    ),
                );
                score = score + 1;
            } else {
                v.push(
                    advise(
                        "MEDIUM",
                        text("HTTP Not Redirecting to HTTPS"),
                        text("Site serves content over plain HTTP."),
                        "Configure HTTP->HTTPS redirect.",
                    ),
                );
            }
        },
        None => {},
    }
    assert(findings_view(v@) =~= responded_outcome(status_text@, status, http_status).0);
    (v, score)
}

/// The finding for a failed request with message `error`, whose lowercase
/// text is `lower`, to `url`.
pub fn failed_request_finding(error: &str, lower: &str, url: &str) -> (f: Finding)
    ensures
        f@ == failed_finding(error@, lower@, url@),
{
    if contains_str(lower, "certificate") || contains_str(lower, "expired") || contains_str(
        lower,
        "not after",
    ) {
        advise(
            "CRITICAL",
            text("SSL Certificate Verification Failed"),
            cat("Certificate is invalid, expired, or self-signed: ", error),
            "Renew or replace the SSL certificate.",
        )
    } else if contains_str(lower, "timeout") || contains_str(lower, "timed out") {
        advise(
            "HIGH",
            text("Connection Timed Out"),
            cat3("Server at ", url, " did not respond in time."),
            "Check server availability and firewall rules.",
        )
    } else {
        advise(
            "MEDIUM",
            text("Connection Failed"),
            text(error),
            "Verify the URL is correct and the server is online.",
        )
    }
}

/// The SSL audit of `url` once the requests are done. An answer earns a
/// point for a success status, three for the accepted certificate and one
/// for a redirect of plain HTTP; a failure earns nothing. Five points or
/// more rate GOOD, three or more FAIR, less POOR.
pub fn ssl_audit(url: String, probe: TlsProbe) -> (r: AuditResultEnvelope)
    ensures
        r.success,
        r.message@ == "SSL/TLS audit for "@ + url@,
        r.data matches AuditData::Ssl(d) && d.target@ == url@ && d.overall_score@ == ssl_rating(
            d.score as int,
        ) && match probe {
            TlsProbe::Responded { status, http_status } => {
                let o = responded_outcome(status_display(status), status, http_status);
                findings_view(d.findings@) == o.0 && d.score == o.1
            },
            TlsProbe::Failed { error } => findings_view(d.findings@) == seq![
                failed_finding(error@, lowercase(error@), url@),
            ] && d.score == 0,
        },
{
    let (findings, score) = match probe {
        TlsProbe::Responded { status, http_status } => {
            let status_text = status_line(status);
            responded_findings(status_text.as_str(), status, http_status)
        },
        TlsProbe::Failed { error } => {
            let lower = to_lowercase(error.as_str());
            let mut v: Vec<Finding> = Vec::new();
            v.push(failed_request_finding(error.as_str(), lower.as_str(), url.as_str()));
            (v, 0)
        },
    };
    let overall = if score >= 5 {
        text("GOOD")
    } else if score >= 3 {
        text("FAIR")
    } else {
        text("POOR")
    };
    let message = cat("SSL/TLS audit for ", url.as_str());
    AuditResultEnvelope {
        success: true,
        message,
        data: AuditData::Ssl(SslAuditData { target: url, findings, overall_score: overall, score }),
    }
}

} // verus!
