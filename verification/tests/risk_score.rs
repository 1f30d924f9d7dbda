use ency_audit_toolkit::backend::findings::Finding;
use ency_audit_toolkit::backend::risk::{calculate_risk_score, severity_class_of, Severity};

fn finding(severity: &str) -> Finding {
    Finding {
        severity: severity.to_string(),
        title: "t".to_string(),
        description: "d".to_string(),
        recommendation: None,
    }
}

fn findings(severities: &[&str]) -> Vec<Finding> {
    severities.iter().map(|s| finding(s)).collect()
}

#[test]
fn mixed_severities_score_moderate() {
    let r = calculate_risk_score(findings(&["CRITICAL", "high", "Medium", "info", "GOOD", "weird"]));
    assert_eq!(r.score, 74);
    assert_eq!(r.level, "MODERATE");
    assert_eq!(r.findings_count, 6);
    assert_eq!(
        (r.critical_count, r.high_count, r.medium_count, r.low_count, r.good_count),
        (1, 1, 1, 1, 1)
    );
    assert_eq!(
        r.executive_summary,
        "Security posture is MODERATE (Score: 74/100). 6 areas for improvement identified. Current controls are partially effective; recommend remediation within 30 days."
    );
}

#[test]
fn no_findings_is_good() {
    let r = calculate_risk_score(Vec::new());
    assert_eq!(r.score, 100);
    assert_eq!(r.level, "LOW");
    assert_eq!(
        r.executive_summary,
        "Security posture is GOOD (Score: 100/100). 0 minor findings; overall controls are effective. Continue regular review and address remaining items at your convenience."
    );
}

#[test]
fn score_never_drops_below_zero() {
    let r = calculate_risk_score(findings(&["critical"; 7]));
    assert_eq!(r.score, 0);
    assert_eq!(r.level, "CRITICAL");
    assert_eq!(
        r.executive_summary,
        "Security posture is CRITICAL (Score: 0/100). 7 critical and 0 high-severity issues identified. Immediate remediation required to reduce risk of compromise. Recommend prioritizing critical findings within 24 hours."
    );
}

#[test]
fn score_never_rises_above_hundred() {
    let r = calculate_risk_score(findings(&["good"; 60]));
    assert_eq!(r.score, 100);
    assert_eq!(r.good_count, 60);
}

#[test]
fn high_risk_band() {
    let r = calculate_risk_score(findings(&["HIGH", "HIGH", "HIGH", "HIGH", "HIGH", "MEDIUM"]));
    assert_eq!(r.score, 56);
    assert_eq!(r.level, "HIGH");
    assert_eq!(
        r.executive_summary,
        "Security posture is HIGH RISK (Score: 56/100). Significant gaps detected across 6 findings. Recommend addressing high-severity issues within 1 week and implementing monitoring."
    );
}

#[test]
fn order_of_two_audits_does_not_matter() {
    let a = ["critical", "good", "low"];
    let b = ["HIGH", "info", "medium", "good"];
    let ab: Vec<&str> = a.iter().chain(b.iter()).cloned().collect();
    let ba: Vec<&str> = b.iter().chain(a.iter()).cloned().collect();
    let x = calculate_risk_score(findings(&ab));
    let y = calculate_risk_score(findings(&ba));
    assert_eq!(x.score, y.score);
    assert_eq!(x.level, y.level);
    assert_eq!(x.executive_summary, y.executive_summary);
}

#[test]
fn one_more_issue_never_raises_the_score() {
    let base = ["medium", "good", "good"];
    let before = calculate_risk_score(findings(&base)).score;
    for extra in ["critical", "High", "medium", "LOW", "info"] {
        let mut more: Vec<&str> = base.to_vec();
        more.push(extra);
        assert!(calculate_risk_score(findings(&more)).score <= before);
    }
    let mut good: Vec<&str> = base.to_vec();
    good.push("Good");
    assert!(calculate_risk_score(findings(&good)).score >= before);
    let mut other: Vec<&str> = base.to_vec();
    other.push("notice");
    assert_eq!(calculate_risk_score(findings(&other)).score, before);
}

#[test]
fn severity_classes() {
    assert!(matches!(severity_class_of("critical"), Some(Severity::Critical)));
    assert!(matches!(severity_class_of("info"), Some(Severity::Low)));
    assert!(matches!(severity_class_of("good"), Some(Severity::Good)));
    assert!(severity_class_of("GOOD").is_none());
}

#[test]
fn any_rearrangement_gives_the_same_result() {
    let order = ["low", "CRITICAL", "good", "medium", "high", "info", "good", "other"];
    let mut reversed = order.to_vec();
    reversed.reverse();
    let mut rotated = order.to_vec();
    rotated.rotate_left(3);
    let x = calculate_risk_score(findings(&order));
    for other in [reversed, rotated] {
        let y = calculate_risk_score(findings(&other));
        assert_eq!(x.score, y.score);
        assert_eq!(
            (x.critical_count, x.high_count, x.medium_count, x.low_count, x.good_count),
            (y.critical_count, y.high_count, y.medium_count, y.low_count, y.good_count)
        );
        assert_eq!(x.executive_summary, y.executive_summary);
    }
}
