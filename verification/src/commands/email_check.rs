//! E-mail security audit of a domain: SPF, DKIM, DMARC, MX and DNSSEC,
//! scored out of 100. The DNS lookups are made by the caller; this module
//! decides what to look up and turns the answers into a report.
use crate::text::{
    has_infix, join, join_strings, lowercase, push_str, to_lowercase, trim, contains_str, trim_str,
};
use vstd::prelude::*;
use vstd::string::*;

verus! {

pub struct EmailSecurityReport {
    pub domain: String,
    pub score: u8,
    pub findings: Vec<Finding>,
}

pub struct Finding {
    pub check: String,
    pub status: String,
    pub detail: String,
}

pub struct EmailAuditInput {
    pub domain: String,
}

/// A finding as three texts: check, status, detail.
pub type FindingView = (Seq<char>, Seq<char>, Seq<char>);

impl View for Finding {
    type V = FindingView;

    open spec fn view(&self) -> FindingView {
        (self.check@, self.status@, self.detail@)
    }
}

pub open spec fn findings_view(v: Seq<Finding>) -> Seq<FindingView> {
    v.map_values(|f: Finding| f@)
}

pub open spec fn texts_view(v: Seq<String>) -> Seq<Seq<char>> {
    v.map_values(|s: String| s@)
}

/// The answer to a DNS lookup: the records' texts, or the failure.
pub open spec fn lookup_view(r: Result<Vec<String>, String>) -> Result<Seq<Seq<char>>, Seq<char>> {
    match r {
        Ok(v) => Ok(texts_view(v@)),
        Err(e) => Err(e@),
    }
}

/// What to do for a requested domain.
pub enum EmailAuditPlan {
    /// The audit is over before any lookup: this is the report.
    Finished(EmailSecurityReport),
    /// Look up TXT records of `domain` and of `dmarc_domain`, and MX records of `domain`.
    Lookup { domain: String, dmarc_domain: String },
}

// ---------------------------------------------------------------------------
// What the report says
// ---------------------------------------------------------------------------

pub open spec fn spf_strictness(text: Seq<char>) -> Seq<char> {
    if has_infix(text, "-all"@) {
        "Strict (Fail)"@
    } else if has_infix(text, "~all"@) {
        "Soft (Softfail)"@
    } else if has_infix(text, "+all"@) {
        "Permissive"@
    } else {
        "No mechanism specified"@
    }
}

/// The SPF finding and the points it costs.
pub open spec fn spf_outcome(lookup: Result<Seq<Seq<char>>, Seq<char>>) -> (FindingView, nat) {
    match lookup {
        Ok(records) => {
            let text = join(records, " "@);
            if has_infix(text, "v=spf1"@) {
                (
                    (
                        "SPF Record"@,
                        "PASS"@,
                        "Found SPF record ("@ + spf_strictness(text) + ")\nRecord: "@ + text,
                    ),
                    0,
                )
            } else {
                (("SPF Record"@, "FAIL"@, "SPF record exists but missing 'v=spf1' tag"@), 25)
            }
        },
        Err(_) => (("SPF Record"@, "FAIL"@, "No SPF record found for this domain"@), 25),
    }
}

pub open spec fn dkim_finding() -> FindingView {
    (
        "DKIM"@,
        "INFO"@,
        "DKIM requires public key verification against received headers. Check DMARC reports for DKIM signing status."@,
    )
}

pub open spec fn dmarc_policy(text: Seq<char>) -> Seq<char> {
    if has_infix(text, "p=reject"@) {
        "Reject"@
    } else if has_infix(text, "p=quarantine"@) {
        "Quarantine"@
    } else if has_infix(text, "p=none"@) {
        "None (Monitoring)"@
    } else {
        "Unknown"@
    }
}

/// The DMARC finding and the points it costs.
pub open spec fn dmarc_outcome(lookup: Result<Seq<Seq<char>>, Seq<char>>) -> (FindingView, nat) {
    match lookup {
        Ok(records) => {
            let text = join(records, " "@);
            let policy = dmarc_policy(text);
            if policy == "Reject"@ || policy == "Quarantine"@ {
                (
                    (
                        "DMARC"@,
                        "PASS"@,
                        "DMARC record found (Policy: "@ + policy + ")\nRecord: "@ + text,
                    ),
                    0,
                )
            } else {
                (
                    (
                        "DMARC"@,
                        "WARN"@,
                        "DMARC record found but policy is '"@ + policy
                            + "'. Recommend 'quarantine' or 'reject'.\nRecord: "@ + text,
                    ),
                    10,
                )
            }
        },
        Err(_) => (("DMARC"@, "FAIL"@, "No DMARC record found for this domain"@), 25),
    }
}

pub open spec fn mx_finding(lookup: Result<Seq<Seq<char>>, Seq<char>>) -> FindingView {
    match lookup {
        Ok(servers) => (
            "MX Records"@,
            "PASS"@,
            "Mail exchange records found: "@ + join(servers, ", "@),
        ),
        Err(_) => (
            "MX Records"@,
            "WARN"@,
            "No MX records found. Domain may not accept email directly."@,
        ),
    }
}

pub open spec fn dnssec_finding(domain: Seq<char>) -> FindingView {
    (
        "DNSSEC"@,
        "INFO"@,
        "DNSSEC validation requires a validating resolver. Verify "@ + domain
            + " uses DNSSEC via a DNSSEC-aware tool."@,
    )
}

pub open spec fn empty_domain_finding() -> FindingView {
    ("Input Validation"@, "FAIL"@, "No domain provided for audit"@)
}

// ---------------------------------------------------------------------------
// Laws
// ---------------------------------------------------------------------------

/// Once a domain is looked up, the score lies between 50 and 100: SPF can
/// cost at most 25 points and DMARC at most 25.
pub proof fn law_looked_up_score_range(
    spf: Result<Seq<Seq<char>>, Seq<char>>,
    dmarc: Result<Seq<Seq<char>>, Seq<char>>,
)
    ensures
        spf_outcome(spf).1 <= 25,
        dmarc_outcome(dmarc).1 <= 25,
        50 <= 100 - spf_outcome(spf).1 - dmarc_outcome(dmarc).1 <= 100,
{
}

/// A passing SPF check and a DMARC policy of reject or quarantine cost
/// nothing; every failing check costs something.
pub proof fn law_only_failures_cost(
    spf: Result<Seq<Seq<char>>, Seq<char>>,
    dmarc: Result<Seq<Seq<char>>, Seq<char>>,
)
    ensures
        (spf_outcome(spf).0.1 == "PASS"@) <==> spf_outcome(spf).1 == 0,
        (dmarc_outcome(dmarc).0.1 == "PASS"@) <==> dmarc_outcome(dmarc).1 == 0,
{
    reveal_strlit("PASS");
    reveal_strlit("FAIL");
    reveal_strlit("WARN");
    assert("PASS"@[0] != "FAIL"@[0]);
    assert("PASS"@[0] != "WARN"@[0]);
}

// ---------------------------------------------------------------------------
// Executable
// ---------------------------------------------------------------------------

fn finding(check: &str, status: &str, detail: String) -> (f: Finding)
    ensures
        f@ == (check@, status@, detail@),
{
    Finding { check: String::from_str(check), status: String::from_str(status), detail }
}

fn text(s: &str) -> (r: String)
    ensures
        r@ == s@,
{
    String::from_str(s)
}

/// The report for a request that names no domain.
pub fn empty_domain_report() -> (r: EmailSecurityReport)
    ensures
        r.domain@ == "unknown"@,
        r.score == 0,
        findings_view(r.findings@) == seq![empty_domain_finding()],
{
    let mut findings = Vec::new();
    findings.push(finding("Input Validation", "FAIL", text("No domain provided for audit")));
    assert(findings_view(findings@) =~= seq![empty_domain_finding()]);
    EmailSecurityReport { domain: text("unknown"), score: 0, findings }
}

/// The plan for a domain already lowercased: trim it, and stop at once when
/// nothing is left.
pub fn plan_for_lowercased(lowered: &str) -> (p: EmailAuditPlan)
    ensures
        trim(lowered@).len() == 0 ==> (p matches EmailAuditPlan::Finished(r) && r.domain@
            == "unknown"@ && r.score == 0 && findings_view(r.findings@) == seq![
            empty_domain_finding(),
        ]),
        trim(lowered@).len() > 0 ==> (p matches EmailAuditPlan::Lookup { domain, dmarc_domain }
            && domain@ == trim(lowered@) && dmarc_domain@ == "_dmarc."@ + trim(lowered@)),
{
    let domain = trim_str(lowered);
    if domain.unicode_len() == 0 {
        return EmailAuditPlan::Finished(empty_domain_report());
    }
    let mut dmarc_domain = text("_dmarc.");
    push_str(&mut dmarc_domain, domain.as_str());
    EmailAuditPlan::Lookup { domain, dmarc_domain }
}

/// What to do for the domain the user typed: lowercase and trim it; with
/// nothing left the audit ends with a zero score, else the DNS lookups follow.
pub fn plan_email_audit(domain: &str) -> (p: EmailAuditPlan)
    ensures
        trim(lowercase(domain@)).len() == 0 ==> (p matches EmailAuditPlan::Finished(r)
            && r.domain@ == "unknown"@ && r.score == 0 && findings_view(r.findings@) == seq![
            empty_domain_finding(),
        ]),
        trim(lowercase(domain@)).len() > 0 ==> (p matches EmailAuditPlan::Lookup {
            domain: d,
            dmarc_domain,
        } && d@ == trim(lowercase(domain@)) && dmarc_domain@ == "_dmarc."@ + trim(
            lowercase(domain@),
        )),
{
    let lowered = to_lowercase(domain);
    plan_for_lowercased(lowered.as_str())
}

fn spf_check(lookup: &Result<Vec<String>, String>) -> (r: (Finding, u8))
    ensures
        (r.0@, r.1 as nat) == spf_outcome(lookup_view(*lookup)),
{
    match lookup {
        Ok(records) => {
            let spf_text = join_strings(records, " ");
            if contains_str(spf_text.as_str(), "v=spf1") {
                let strictness = if contains_str(spf_text.as_str(), "-all") {
                    "Strict (Fail)"
                } else if contains_str(spf_text.as_str(), "~all") {
                    "Soft (Softfail)"
                } else if contains_str(spf_text.as_str(), "+all") {
                    "Permissive"
                } else {
                    "No mechanism specified"
                };
                let mut detail = text("Found SPF record (");
                push_str(&mut detail, strictness);
                push_str(&mut detail, ")\nRecord: ");
                push_str(&mut detail, spf_text.as_str());
                (finding("SPF Record", "PASS", detail), 0)
            } else {
                (
                    finding(
                        "SPF Record",
                        "FAIL",
                        text("SPF record exists but missing 'v=spf1' tag"),
                    ),
                    25,
                )
            }
        },
        Err(_) => (finding("SPF Record", "FAIL", text("No SPF record found for this domain")), 25),
    }
}

fn dmarc_check(lookup: &Result<Vec<String>, String>) -> (r: (Finding, u8))
    ensures
        (r.0@, r.1 as nat) == dmarc_outcome(lookup_view(*lookup)),
{
    match lookup {
        Ok(records) => {
            let dmarc_text = join_strings(records, " ");
            let t = dmarc_text.as_str();
            let (policy, strong) = if contains_str(t, "p=reject") {
                ("Reject", true)
            } else if contains_str(t, "p=quarantine") {
                ("Quarantine", true)
            } else if contains_str(t, "p=none") {
                ("None (Monitoring)", false)
            } else {
                ("Unknown", false)
            };
            proof {
                reveal_strlit("Reject");
                reveal_strlit("Quarantine");
                reveal_strlit("None (Monitoring)");
                reveal_strlit("Unknown");
                assert(strong == (policy@ == "Reject"@ || policy@ == "Quarantine"@));
            }
            if strong {
                let mut detail = text("DMARC record found (Policy: ");
                push_str(&mut detail, policy);
                push_str(&mut detail, ")\nRecord: ");
                push_str(&mut detail, t);
                (finding("DMARC", "PASS", detail), 0)
            } else {
                let mut detail = text("DMARC record found but policy is '");
                push_str(&mut detail, policy);
                push_str(&mut detail, "'. Recommend 'quarantine' or 'reject'.\nRecord: ");
                push_str(&mut detail, t);
                (finding("DMARC", "WARN", detail), 10)
            }
        },
        Err(_) => (finding("DMARC", "FAIL", text("No DMARC record found for this domain")), 25),
    }
}

fn mx_check(lookup: &Result<Vec<String>, String>) -> (f: Finding)
    ensures
        f@ == mx_finding(lookup_view(*lookup)),
{
    match lookup {
        Ok(servers) => {
            let mut detail = text("Mail exchange records found: ");
            let joined = join_strings(servers, ", ");
            push_str(&mut detail, joined.as_str());
            finding("MX Records", "PASS", detail)
        },
        Err(_) => finding(
            "MX Records",
            "WARN",
            text("No MX records found. Domain may not accept email directly."),
        ),
    }
}

/// The report once the lookups are answered: the SPF and DMARC TXT records
/// (or the failure of their lookup) and the MX exchange names. The score
/// starts at 100 and loses what the SPF and DMARC findings cost.
pub fn email_security_report(
    domain: String,
    spf: Result<Vec<String>, String>,
    dmarc: Result<Vec<String>, String>,
    mx: Result<Vec<String>, String>,
) -> (r: EmailSecurityReport)
    ensures
        r.domain@ == domain@,
        r.score == 100 - spf_outcome(lookup_view(spf)).1 - dmarc_outcome(lookup_view(dmarc)).1,
        findings_view(r.findings@) == seq![
            spf_outcome(lookup_view(spf)).0,
            dkim_finding(),
            dmarc_outcome(lookup_view(dmarc)).0,
            mx_finding(lookup_view(mx)),
            dnssec_finding(domain@),
        ],
{
    let mut findings: Vec<Finding> = Vec::new();
    let mut score: u8 = 100;
    let (f, cost) = spf_check(&spf);
    findings.push(f);
    score = score - cost;
    findings.push(
        finding(
            "DKIM",
            "INFO",
            text(
                "DKIM requires public key verification against received headers. Check DMARC reports for DKIM signing status.",
            ),
        ),
    );
    let (f, cost) = dmarc_check(&dmarc);
    findings.push(f);
    score = score - cost;
    findings.push(mx_check(&mx));
    let mut detail = text("DNSSEC validation requires a validating resolver. Verify ");
    push_str(&mut detail, domain.as_str());
    push_str(&mut detail, " uses DNSSEC via a DNSSEC-aware tool.");
    findings.push(finding("DNSSEC", "INFO", detail));
    assert(findings_view(findings@) =~= seq![
        spf_outcome(lookup_view(spf)).0,
        dkim_finding(),
        dmarc_outcome(lookup_view(dmarc)).0,
        mx_finding(lookup_view(mx)),
        dnssec_finding(domain@),
    ]);
    EmailSecurityReport { domain, score, findings }
}

} // verus!
