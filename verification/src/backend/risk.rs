//! The risk score: 100 means no risk and 0 critical risk. Each finding
//! moves the score by its severity, the result is kept within 0 and 100,
//! and a level and an executive summary follow from it.
use crate::backend::findings::{text, Finding};
use crate::text::{decimal, equals_str, lowercase, push_decimal, push_str, to_lowercase};
use vstd::prelude::*;
use vstd::string::*;

verus! {

#[derive(Clone, Copy)]
pub enum Severity {
    Critical,
    High,
    Medium,
    /// `low` and `info`.
    Low,
    Good,
}

pub struct RiskScoreResult {
    pub score: i32,
    pub level: String,
    pub findings_count: usize,
    pub critical_count: i32,
    pub high_count: i32,
    pub medium_count: i32,
    pub low_count: i32,
    pub good_count: i32,
    pub executive_summary: String,
}

/// The class of a lowercased severity; other texts have none and are ignored.
pub open spec fn severity_class(lower: Seq<char>) -> Option<Severity> {
    if lower == "critical"@ {
        Some(Severity::Critical)
    } else if lower == "high"@ {
        Some(Severity::High)
    } else if lower == "medium"@ {
        Some(Severity::Medium)
    } else if lower == "low"@ || lower == "info"@ {
        Some(Severity::Low)
    } else if lower == "good"@ {
        Some(Severity::Good)
    } else {
        None
    }
}

/// Critical, high, medium, low and good counts.
pub type Tally = (nat, nat, nat, nat, nat);

pub open spec fn tally_add(t: Tally, u: Tally) -> Tally {
    (t.0 + u.0, t.1 + u.1, t.2 + u.2, t.3 + u.3, t.4 + u.4)
}

pub open spec fn tally_one(c: Option<Severity>) -> Tally {
    match c {
        Some(Severity::Critical) => (1, 0, 0, 0, 0),
        Some(Severity::High) => (0, 1, 0, 0, 0),
        Some(Severity::Medium) => (0, 0, 1, 0, 0),
        Some(Severity::Low) => (0, 0, 0, 1, 0),
        Some(Severity::Good) => (0, 0, 0, 0, 1),
        None => (0, 0, 0, 0, 0),
    }
}

/// How many of the severities `sevs` fall in each class.
pub open spec fn tally(sevs: Seq<Seq<char>>) -> Tally
    decreases sevs.len(),
{
    if sevs.len() == 0 {
        (0, 0, 0, 0, 0)
    } else {
        tally_add(tally(sevs.drop_last()), tally_one(severity_class(lowercase(sevs.last()))))
    }
}

pub open spec fn severities(fs: Seq<Finding>) -> Seq<Seq<char>> {
    fs.map_values(|f: Finding| f.severity@)
}

/// The score before it is kept within 0 and 100.
pub open spec fn raw_score(t: Tally) -> int {
    100 - 15 * t.0 - 8 * t.1 - 4 * t.2 - t.3 + 2 * t.4
}

pub open spec fn clamp_score(x: int) -> int {
    if x < 0 {
        0
    } else if x > 100 {
        100
    } else {
        x
    }
}

/// The risk score of findings with severities `sevs`.
pub open spec fn risk_score(sevs: Seq<Seq<char>>) -> int {
    clamp_score(raw_score(tally(sevs)))
}

pub open spec fn risk_level(score: int) -> Seq<char> {
    if score >= 80 {
        "LOW"@
    } else if score >= 60 {
        "MODERATE"@
    } else if score >= 35 {
        "HIGH"@
    } else {
        "CRITICAL"@
    }
}

pub open spec fn executive_summary(score: nat, t: Tally, count: nat) -> Seq<char> {
    if score < 35 {
        "Security posture is CRITICAL (Score: "@ + decimal(score) + "/100). "@ + decimal(t.0)
            + " critical and "@ + decimal(t.1)
            + " high-severity issues identified. Immediate remediation required to reduce risk of compromise. Recommend prioritizing critical findings within 24 hours."@
    } else if score < 60 {
        "Security posture is HIGH RISK (Score: "@ + decimal(score)
            + "/100). Significant gaps detected across "@ + decimal(count)
            + " findings. Recommend addressing high-severity issues within 1 week and implementing monitoring."@
    } else if score < 80 {
        "Security posture is MODERATE (Score: "@ + decimal(score) + "/100). "@ + decimal(count)
            + " areas for improvement identified. Current controls are partially effective; recommend remediation within 30 days."@
    } else {
        "Security posture is GOOD (Score: "@ + decimal(score) + "/100). "@ + decimal(count)
            + " minor findings; overall controls are effective. Continue regular review and address remaining items at your convenience."@
    }
}

/// The largest number of findings for which the score, kept as an `i32`
/// while findings are added, cannot leave the `i32` range.
pub open spec fn max_findings() -> nat {
    143_165_583
}

// ---------------------------------------------------------------------------
// Laws
// ---------------------------------------------------------------------------

proof fn lemma_tally_bounded(sevs: Seq<Seq<char>>)
    ensures
        ({
            let t = tally(sevs);
            t.0 + t.1 + t.2 + t.3 + t.4 <= sevs.len()
        }),
    decreases sevs.len(),
{
    if sevs.len() > 0 {
        lemma_tally_bounded(sevs.drop_last());
    }
}

/// The counts of two lists of findings together are the sums of their counts.
pub proof fn lemma_tally_concat(a: Seq<Seq<char>>, b: Seq<Seq<char>>)
    ensures
        tally(a + b) == tally_add(tally(a), tally(b)),
    decreases b.len(),
{
    if b.len() == 0 {
        assert(a + b =~= a);
    } else {
        assert((a + b).drop_last() =~= a + b.drop_last());
        assert((a + b).last() == b.last());
        lemma_tally_concat(a, b.drop_last());
    }
}

/// No class counts more findings than there are: the counts of the five
/// classes add up to at most the number of findings.
pub proof fn law_counts_within_findings(sevs: Seq<Seq<char>>)
    ensures
        ({
            let t = tally(sevs);
            t.0 + t.1 + t.2 + t.3 + t.4 <= sevs.len()
        }),
{
    lemma_tally_bounded(sevs);
}

/// The score and counts do not depend on the order in which two audits'
/// findings are put together.
pub proof fn law_order_does_not_matter(a: Seq<Seq<char>>, b: Seq<Seq<char>>)
    ensures
        tally(a + b) == tally(b + a),
        risk_score(a + b) == risk_score(b + a),
{
    lemma_tally_concat(a, b);
    lemma_tally_concat(b, a);
}

/// The score and counts do not depend on the order of the findings at all:
/// any rearrangement of the same severities gives the same result.
pub proof fn law_any_order(a: Seq<Seq<char>>, b: Seq<Seq<char>>)
    requires
        a.to_multiset() == b.to_multiset(),
    ensures
        tally(a) == tally(b),
        risk_score(a) == risk_score(b),
    decreases a.len(),
{
    broadcast use vstd::seq_lib::group_to_multiset_ensures;

    if a.len() == 0 {
        assert(a.to_multiset().len() == 0);
        assert(b.to_multiset().len() == b.len());
        assert(b =~= a);
    } else {
        let x = a.last();
        let rest = a.drop_last();
        assert(a =~= rest.push(x));
        assert(a.to_multiset().count(x) > 0);
        assert(b.contains(x));
        let j = choose|j: int| 0 <= j < b.len() && b[j] == x;
        let b2 = b.remove(j);
        assert(b2.to_multiset() =~= rest.to_multiset());
        law_any_order(rest, b2);
        let left = b.subrange(0, j);
        let right = b.subrange(j + 1, b.len() as int);
        assert(b =~= left + (seq![x] + right));
        assert(b2 =~= left + right);
        lemma_tally_concat(left, seq![x] + right);
        lemma_tally_concat(seq![x], right);
        lemma_tally_concat(left, right);
        assert(seq![x].drop_last() =~= Seq::<Seq<char>>::empty());
        assert(seq![x].last() == x);
        assert(tally(seq![x].drop_last()) == (0nat, 0nat, 0nat, 0nat, 0nat));
        let one = tally_one(severity_class(lowercase(x)));
        assert(tally(seq![x]) == one);
        assert(tally(a) == tally_add(tally(rest), one));
        assert(tally(b) == tally_add(tally(left), tally_add(one, tally(right))));
        assert(tally(b2) == tally_add(tally(left), tally(right)));
    }
}

/// What one more finding does, by its lowercased severity: `critical` adds
/// one critical count and takes 15 points, `high` one high count and 8,
/// `medium` one medium count and 4, `low` and `info` alike one low count and
/// 1, `good` one good count and gives 2; any other severity changes nothing.
pub proof fn law_each_severity(sevs: Seq<Seq<char>>, severity: Seq<char>)
    ensures
        ({
            let t = tally(sevs);
            let u = tally(sevs.push(severity));
            let l = lowercase(severity);
            &&& l == "critical"@ ==> u == (t.0 + 1, t.1, t.2, t.3, t.4) && raw_score(u) == raw_score(t) - 15
            &&& l == "high"@ ==> u == (t.0, t.1 + 1, t.2, t.3, t.4) && raw_score(u) == raw_score(t) - 8
            &&& l == "medium"@ ==> u == (t.0, t.1, t.2 + 1, t.3, t.4) && raw_score(u) == raw_score(t) - 4
            &&& (l == "low"@ || l == "info"@) ==> u == (t.0, t.1, t.2, t.3 + 1, t.4) && raw_score(u)
                == raw_score(t) - 1
            &&& l == "good"@ ==> u == (t.0, t.1, t.2, t.3, t.4 + 1) && raw_score(u) == raw_score(t) + 2
            &&& (l != "critical"@ && l != "high"@ && l != "medium"@ && l != "low"@ && l != "info"@
                && l != "good"@) ==> u == t
        }),
{
    assert(sevs.push(severity).drop_last() =~= sevs);
    reveal_strlit("critical");
    reveal_strlit("high");
    reveal_strlit("medium");
    reveal_strlit("low");
    reveal_strlit("info");
    reveal_strlit("good");
    let l = lowercase(severity);
    if l.len() > 0 {
        if l == "critical"@ || l == "high"@ || l == "medium"@ || l == "low"@ || l == "info"@ || l
            == "good"@ {
            assert(l[0] == 'c' || l[0] == 'h' || l[0] == 'm' || l[0] == 'l' || l[0] == 'i' || l[0]
                == 'g');
        }
    }
}

/// The score of the findings is 100, less 15 per critical, 8 per high, 4 per
/// medium and 1 per low or info finding, plus 2 per good one, kept within 0
/// and 100.
pub proof fn law_score_formula(sevs: Seq<Seq<char>>)
    ensures
        risk_score(sevs) == clamp_score(
            100 - 15 * tally(sevs).0 - 8 * tally(sevs).1 - 4 * tally(sevs).2 - tally(sevs).3 + 2
                * tally(sevs).4,
        ),
{
}

/// The level falls from LOW (80 and above) through MODERATE (60 to 79) and
/// HIGH (35 to 59) to CRITICAL (below 35), and the executive summary opens
/// by naming the posture of that level and the score.
pub proof fn law_level_and_summary(score: nat, t: Tally, count: nat)
    requires
        score <= 100,
    ensures
        risk_level(score as int) == "LOW"@ <==> score >= 80,
        risk_level(score as int) == "MODERATE"@ <==> 60 <= score < 80,
        risk_level(score as int) == "HIGH"@ <==> 35 <= score < 60,
        risk_level(score as int) == "CRITICAL"@ <==> score < 35,
        ({
            let head = if score < 35 {
                "Security posture is CRITICAL (Score: "@
            } else if score < 60 {
                "Security posture is HIGH RISK (Score: "@
            } else if score < 80 {
                "Security posture is MODERATE (Score: "@
            } else {
                "Security posture is GOOD (Score: "@
            } + decimal(score) + "/100). "@;
            executive_summary(score, t, count).subrange(0, head.len() as int) == head
        }),
{
    reveal_strlit("LOW");
    reveal_strlit("MODERATE");
    reveal_strlit("HIGH");
    reveal_strlit("CRITICAL");
    assert("LOW"@[0] != "MODERATE"@[0] && "LOW"@[0] != "HIGH"@[0] && "LOW"@[0] != "CRITICAL"@[0]);
    assert("MODERATE"@[0] != "HIGH"@[0] && "MODERATE"@[0] != "CRITICAL"@[0]);
    assert("HIGH"@[0] != "CRITICAL"@[0]);
    let e = executive_summary(score, t, count);
    if 35 <= score < 60 {
        let start = "Security posture is HIGH RISK (Score: "@ + decimal(score);
        let rest = "/100). Significant gaps detected across "@;
        reveal_strlit("/100). Significant gaps detected across ");
        reveal_strlit("/100). ");
        assert(rest.subrange(0, 7) =~= "/100). "@);
        let head = start + "/100). "@;
        assert(e.subrange(0, head.len() as int) =~= head);
    } else {
        let head = if score < 35 {
            "Security posture is CRITICAL (Score: "@
        } else if score < 80 {
            "Security posture is MODERATE (Score: "@
        } else {
            "Security posture is GOOD (Score: "@
        } + decimal(score) + "/100). "@;
        assert(e.subrange(0, head.len() as int) =~= head);
    }
}

/// One more finding of severity critical, high, medium, low or info never
/// raises the score; one more good finding never lowers it; one of any other
/// severity leaves it as it was.
pub proof fn law_one_more_finding(sevs: Seq<Seq<char>>, severity: Seq<char>)
    ensures
        ({
            let c = severity_class(lowercase(severity));
            &&& (c matches Some(k) && !(k is Good)) ==> risk_score(sevs.push(severity))
                <= risk_score(sevs)
            &&& c == Some(Severity::Good) ==> risk_score(sevs.push(severity)) >= risk_score(sevs)
            &&& c is None ==> risk_score(sevs.push(severity)) == risk_score(sevs)
        }),
{
    assert(sevs.push(severity).drop_last() =~= sevs);
}

/// The score stays within 0 and 100 whatever the findings.
pub proof fn law_score_within_bounds(sevs: Seq<Seq<char>>)
    ensures
        0 <= risk_score(sevs) <= 100,
{
}

// ---------------------------------------------------------------------------
// Executable
// ---------------------------------------------------------------------------

/// The class of a lowercased severity.
pub fn severity_class_of(lower: &str) -> (c: Option<Severity>)
    ensures
        c == severity_class(lower@),
{
    if equals_str(lower, "critical") {
        Some(Severity::Critical)
    } else if equals_str(lower, "high") {
        Some(Severity::High)
    } else if equals_str(lower, "medium") {
        Some(Severity::Medium)
    } else if equals_str(lower, "low") || equals_str(lower, "info") {
        Some(Severity::Low)
    } else if equals_str(lower, "good") {
        Some(Severity::Good)
    } else {
        None
    }
}

fn summary_text(score: i32, critical: i32, high: i32, count: usize) -> (r: String)
    requires
        0 <= score <= 100,
        critical >= 0,
        high >= 0,
    ensures
        r@ == executive_summary(score as nat, (critical as nat, high as nat, 0, 0, 0), count as nat),
{
    if score < 35 {
        let mut r = text("Security posture is CRITICAL (Score: ");
        push_decimal(&mut r, score as u64);
        push_str(&mut r, "/100). ");
        push_decimal(&mut r, critical as u64);
        push_str(&mut r, " critical and ");
        push_decimal(&mut r, high as u64);
        push_str(
            &mut r,
            " high-severity issues identified. Immediate remediation required to reduce risk of compromise. Recommend prioritizing critical findings within 24 hours.",
        );
        r
    } else if score < 60 {
        let mut r = text("Security posture is HIGH RISK (Score: ");
        push_decimal(&mut r, score as u64);
        push_str(&mut r, "/100). Significant gaps detected across ");
        push_decimal(&mut r, count as u64);
        push_str(
            &mut r,
            " findings. Recommend addressing high-severity issues within 1 week and implementing monitoring.",
        );
        r
    } else if score < 80 {
        let mut r = text("Security posture is MODERATE (Score: ");
        push_decimal(&mut r, score as u64);
        push_str(&mut r, "/100). ");
        push_decimal(&mut r, count as u64);
        push_str(
            &mut r,
            " areas for improvement identified. Current controls are partially effective; recommend remediation within 30 days.",
        );
        r
    } else {
        let mut r = text("Security posture is GOOD (Score: ");
        push_decimal(&mut r, score as u64);
        push_str(&mut r, "/100). ");
        push_decimal(&mut r, count as u64);
        push_str(
            &mut r,
            " minor findings; overall controls are effective. Continue regular review and address remaining items at your convenience.",
        );
        r
    }
}

/// The risk score of `findings`, its level, the count of each severity class
/// (severities compared in lowercase) and an executive summary.
pub fn calculate_risk_score(findings: Vec<Finding>) -> (r: RiskScoreResult)
    requires
        findings@.len() <= max_findings(),
    ensures
        r.score == risk_score(severities(findings@)),
        0 <= r.score <= 100,
        r.level@ == risk_level(r.score as int),
        r.findings_count == findings@.len(),
        r.critical_count as int == tally(severities(findings@)).0,
        r.high_count as int == tally(severities(findings@)).1,
        r.medium_count as int == tally(severities(findings@)).2,
        r.low_count as int == tally(severities(findings@)).3,
        r.good_count as int == tally(severities(findings@)).4,
        r.executive_summary@ == executive_summary(
            r.score as nat,
            tally(severities(findings@)),
            findings@.len(),
        ),
{
    let ghost sevs = severities(findings@);
    let mut score: i32 = 100;
    let mut critical: i32 = 0;
    let mut high: i32 = 0;
    let mut medium: i32 = 0;
    let mut low: i32 = 0;
    let mut good: i32 = 0;
    let mut i: usize = 0;
    assert(sevs.take(0) =~= Seq::<Seq<char>>::empty());
    while i < findings.len()
        invariant
            i <= findings.len() <= max_findings(),
            sevs == severities(findings@),
            (critical as nat, high as nat, medium as nat, low as nat, good as nat) == tally(
                sevs.take(i as int),
            ),
            critical >= 0 && high >= 0 && medium >= 0 && low >= 0 && good >= 0,
            critical + high + medium + low + good <= i,
            score == raw_score(tally(sevs.take(i as int))),
        decreases findings.len() - i,
    {
        proof {
            assert(sevs.take(i + 1).drop_last() =~= sevs.take(i as int));
            assert(sevs.take(i + 1).last() == findings@[i as int].severity@);
        }
        let lower = to_lowercase(findings[i].severity.as_str());
        match severity_class_of(lower.as_str()) {
            Some(Severity::Critical) => {
                critical = critical + 1;
                score = score - 15;
            },
            Some(Severity::High) => {
                high = high + 1;
                score = score - 8;
            },
            Some(Severity::Medium) => {
                medium = medium + 1;
                score = score - 4;
            },
            Some(Severity::Low) => {
                low = low + 1;
                score = score - 1;
            },
            Some(Severity::Good) => {
                good = good + 1;
                score = score + 2;
            },
            None => {},
        }
        i = i + 1;
    }
    assert(sevs.take(findings.len() as int) =~= sevs);
    if score < 0 {
        score = 0;
    }
    if score > 100 {
        score = 100;
    }
    let level = if score >= 80 {
        text("LOW")
    } else if score >= 60 {
        text("MODERATE")
    } else if score >= 35 {
        text("HIGH")
    } else {
        text("CRITICAL")
    };
    let executive_summary = summary_text(score, critical, high, findings.len());
    RiskScoreResult {
        score,
        level,
        findings_count: findings.len(),
        critical_count: critical,
        high_count: high,
        medium_count: medium,
        low_count: low,
        good_count: good,
        executive_summary,
    }
}

} // verus!
