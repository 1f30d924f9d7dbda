use ency_audit_toolkit::commands::email_check::{
    email_security_report, plan_email_audit, EmailAuditPlan, EmailSecurityReport,
};

fn views(r: &EmailSecurityReport) -> Vec<(String, String, String)> {
    r.findings.iter().map(|f| (f.check.clone(), f.status.clone(), f.detail.clone())).collect()
}

#[test]
fn plan_lowercases_and_trims_the_domain() {
    match plan_email_audit("  Example.COM \n") {
        EmailAuditPlan::Lookup { domain, dmarc_domain } => {
            assert_eq!(domain, "example.com");
            assert_eq!(dmarc_domain, "_dmarc.example.com");
        }
        EmailAuditPlan::Finished(_) => panic!("a domain was given"),
    }
    match plan_email_audit("ÄBC.example") {
        EmailAuditPlan::Lookup { domain, .. } => assert_eq!(domain, "äbc.example"),
        EmailAuditPlan::Finished(_) => panic!("a domain was given"),
    }
}

#[test]
fn plan_without_domain_scores_zero() {
    match plan_email_audit("   ") {
        EmailAuditPlan::Finished(r) => {
            assert_eq!(r.domain, "unknown");
            assert_eq!(r.score, 0);
            assert_eq!(
                views(&r),
                vec![(
                    "Input Validation".to_string(),
                    "FAIL".to_string(),
                    "No domain provided for audit".to_string()
                )]
            );
        }
        EmailAuditPlan::Lookup { .. } => panic!("no domain was given"),
    }
}

#[test]
fn soft_spf_and_monitoring_dmarc_score_ninety() {
    let r = email_security_report(
        "example.com".to_string(),
        Ok(vec!["v=spf1 include:_spf.google.com ~all".to_string()]),
        Ok(vec!["v=DMARC1; p=none; rua=mailto:x@example.com".to_string()]),
        Ok(vec!["mx1.example.com.".to_string(), "mx2.example.com.".to_string()]),
    );
    assert_eq!(r.domain, "example.com");
    assert_eq!(r.score, 90);
    let v = views(&r);
    assert_eq!(v.len(), 5);
    assert_eq!(v[0].1, "PASS");
    assert_eq!(
        v[0].2,
        "Found SPF record (Soft (Softfail))\nRecord: v=spf1 include:_spf.google.com ~all"
    );
    assert_eq!(v[1].0, "DKIM");
    assert_eq!(v[2].1, "WARN");
    assert_eq!(
        v[2].2,
        "DMARC record found but policy is 'None (Monitoring)'. Recommend 'quarantine' or 'reject'.\nRecord: v=DMARC1; p=none; rua=mailto:x@example.com"
    );
    assert_eq!(v[3].2, "Mail exchange records found: mx1.example.com., mx2.example.com.");
    assert_eq!(
        v[4].2,
        "DNSSEC validation requires a validating resolver. Verify example.com uses DNSSEC via a DNSSEC-aware tool."
    );
}

#[test]
fn strict_records_keep_full_score() {
    let r = email_security_report(
        "example.org".to_string(),
        Ok(vec!["v=spf1".to_string(), "-all".to_string()]),
        Ok(vec!["v=DMARC1; p=reject".to_string()]),
        Ok(vec![]),
    );
    assert_eq!(r.score, 100);
    let v = views(&r);
    assert_eq!(v[0].2, "Found SPF record (Strict (Fail))\nRecord: v=spf1 -all");
    assert_eq!(v[2].2, "DMARC record found (Policy: Reject)\nRecord: v=DMARC1; p=reject");
    assert_eq!(v[3].2, "Mail exchange records found: ");
}

#[test]
fn failed_lookups_cost_fifty() {
    let r = email_security_report(
        "example.net".to_string(),
        Err("no records".to_string()),
        Err("no records".to_string()),
        Err("no records".to_string()),
    );
    assert_eq!(r.score, 50);
    let v = views(&r);
    assert_eq!(v[0].2, "No SPF record found for this domain");
    assert_eq!(v[2].2, "No DMARC record found for this domain");
    assert_eq!(v[3].1, "WARN");
}

#[test]
fn txt_without_spf_tag_fails() {
    let r = email_security_report(
        "example.net".to_string(),
        Ok(vec!["google-site-verification=abc".to_string()]),
        Ok(vec!["v=DMARC1; p=quarantine".to_string()]),
        Err("none".to_string()),
    );
    assert_eq!(r.score, 75);
    let v = views(&r);
    assert_eq!(v[0].2, "SPF record exists but missing 'v=spf1' tag");
    assert_eq!(v[2].1, "PASS");
}
