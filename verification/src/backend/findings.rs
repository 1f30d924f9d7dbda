//! Findings, the result envelope, and the data each audit reports.
use vstd::prelude::*;
use vstd::string::*;

verus! {

pub struct Finding {
    pub severity: String,
    pub title: String,
    pub description: String,
    pub recommendation: Option<String>,
}

/// A finding as severity, title, description and optional recommendation.
pub type FindingView = (Seq<char>, Seq<char>, Seq<char>, Option<Seq<char>>);

pub open spec fn opt_text(o: Option<String>) -> Option<Seq<char>> {
    match o {
        Some(s) => Some(s@),
        None => None,
    }
}

impl View for Finding {
    type V = FindingView;

    open spec fn view(&self) -> FindingView {
        (self.severity@, self.title@, self.description@, opt_text(self.recommendation))
    }
}

pub open spec fn findings_view(v: Seq<Finding>) -> Seq<FindingView> {
    v.map_values(|f: Finding| f@)
}

/// A finding with a recommendation.
pub fn advise(severity: &str, title: String, description: String, recommendation: &str) -> (f:
    Finding)
    ensures
        f@ == (severity@, title@, description@, Some(recommendation@)),
{
    Finding {
        severity: String::from_str(severity),
        title,
        description,
        recommendation: Some(String::from_str(recommendation)),
    }
}

/// A finding without a recommendation.
pub fn note(severity: &str, title: String, description: String) -> (f: Finding)
    ensures
        f@ == (severity@, title@, description@, None::<Seq<char>>),
{
    Finding { severity: String::from_str(severity), title, description, recommendation: None }
}

/// An owned copy of a string slice.
pub fn text(s: &str) -> (r: String)
    ensures
        r@ == s@,
{
    String::from_str(s)
}

/// `a` followed by `b`.
pub fn cat(a: &str, b: &str) -> (r: String)
    ensures
        r@ == a@ + b@,
{
    let mut r = String::from_str(a);
    r.append(b);
    r
}

/// `a`, `b` and `c` in a row.
pub fn cat3(a: &str, b: &str, c: &str) -> (r: String)
    ensures
        r@ == a@ + b@ + c@,
{
    let mut r = String::from_str(a);
    r.append(b);
    r.append(c);
    r
}

/// The result of an audit command.
pub struct AuditResultEnvelope {
    pub success: bool,
    pub message: String,
    pub data: AuditData,
}

/// What an audit reports besides its message.
pub enum AuditData {
    /// The audit could not run: `{"error": ...}`.
    Error { error: String },
    /// Nothing to report: `{"findings": []}`.
    NoFindings,
    Email(EmailAuditData),
    Ssl(SslAuditData),
    Firewall(FirewallAuditData),
    Ports(PortScanData),
    Panel(PanelData),
}

pub struct EmailAuditData {
    pub domain: String,
    pub findings: Vec<Finding>,
    pub overall_score: String,
    pub spf: i32,
    pub dmarc: i32,
    pub mx: i32,
    pub total: i32,
}

pub struct SslAuditData {
    pub target: String,
    pub findings: Vec<Finding>,
    pub overall_score: String,
    pub score: i32,
}

pub struct FirewallAuditData {
    pub rules_count: usize,
    pub findings: Vec<Finding>,
    pub overall_score: String,
}

pub struct PortScanData {
    pub target: String,
    pub open_ports: Vec<(u16, String)>,
    pub findings: Vec<Finding>,
    pub open: usize,
    pub closed: usize,
    pub timeout: usize,
}

/// The panel that introduces an audit module before it runs.
pub struct PanelData {
    pub title: String,
    pub overall_score: String,
    pub summary: String,
    pub findings: Vec<Finding>,
}

} // verus!
