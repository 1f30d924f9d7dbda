use ency_audit_toolkit::commands::ssl_check::{
    plan_ssl_certificate_check, ssl_certificate_report, HttpsResponse, SecurityHeaders,
    SslCheckPlan,
};

fn headers(hsts: bool, xcto: Option<&[u8]>, xfo: bool, csp: Option<&[u8]>) -> SecurityHeaders {
    SecurityHeaders {
        strict_transport_security: if hsts { Some(b"max-age=63072000".to_vec()) } else { None },
        x_content_type_options: xcto.map(|v| v.to_vec()),
        x_frame_options: if xfo { Some(b"DENY".to_vec()) } else { None },
        content_security_policy: csp.map(|v| v.to_vec()),
    }
}

#[test]
fn plan_builds_the_url_with_the_default_port() {
    match plan_ssl_certificate_check("example.com", None) {
        SslCheckPlan::Connect { url, port } => {
            assert_eq!(url, "https://example.com:443");
            assert_eq!(port, 443);
        }
        SslCheckPlan::Finished(_) => panic!("a host was given"),
    }
    match plan_ssl_certificate_check("example.com", Some(8443)) {
        SslCheckPlan::Connect { url, .. } => assert_eq!(url, "https://example.com:8443"),
        SslCheckPlan::Finished(_) => panic!("a host was given"),
    }
}

#[test]
fn plan_without_host_scores_zero() {
    match plan_ssl_certificate_check("", Some(8443)) {
        SslCheckPlan::Finished(r) => {
            assert_eq!(r.host, "unknown");
            assert_eq!(r.port, 8443);
            assert_eq!(r.score, 0);
            assert_eq!(r.findings.len(), 1);
            assert_eq!(r.findings[0].detail, "No host provided for audit");
        }
        SslCheckPlan::Connect { .. } => panic!("no host was given"),
    }
}

#[test]
fn well_protected_response_keeps_full_score() {
    let r = ssl_certificate_report(
        "example.com".to_string(),
        443,
        Ok(HttpsResponse {
            status: 200,
            headers: headers(true, Some(b"nosniff"), false, Some(b"frame-ancestors 'none'")),
        }),
    );
    assert_eq!(r.score, 100);
    let statuses: Vec<&str> = r.findings.iter().map(|f| f.status.as_str()).collect();
    assert_eq!(statuses, vec!["PASS", "PASS", "PASS", "PASS", "INFO", "INFO"]);
    assert_eq!(
        r.findings[0].detail,
        "Successfully established TLS connection. HTTP status: 200 OK"
    );
}

#[test]
fn missing_headers_cost_fifteen() {
    let r = ssl_certificate_report(
        "example.com".to_string(),
        443,
        Ok(HttpsResponse { status: 404, headers: headers(false, Some(b"nosniff\x80"), false, None) }),
    );
    assert_eq!(r.score, 85);
    assert_eq!(
        r.findings[0].detail,
        "Successfully established TLS connection. HTTP status: 404 Not Found"
    );
    assert_eq!(r.findings[1].status, "WARN");
    assert_eq!(r.findings[2].status, "INFO");
    assert_eq!(r.findings[3].status, "WARN");
}

#[test]
fn certificate_error_costs_fifty() {
    let r = ssl_certificate_report(
        "expired.badssl.com".to_string(),
        443,
        Err("error sending request: invalid peer certificate: Expired".to_string()),
    );
    assert_eq!(r.score, 50);
    assert_eq!(
        r.findings[0].detail,
        "Certificate error: error sending request: invalid peer certificate: Expired. Certificate may be expired, self-signed, or misconfigured."
    );
    assert_eq!(r.findings[1].status, "SKIP");
    assert_eq!(r.findings.len(), 4);
}

#[test]
fn timeouts_and_other_failures() {
    let r = ssl_certificate_report("h".to_string(), 443, Err("operation timeout".to_string()));
    assert_eq!(
        r.findings[0].detail,
        "Connection timed out. Server may be unreachable or firewall is blocking port 443"
    );
    let r = ssl_certificate_report("h".to_string(), 443, Err("dns error".to_string()));
    assert_eq!(r.findings[0].detail, "Failed to connect: dns error");
}
