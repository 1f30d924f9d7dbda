//! Heuristic assessment of an iptables/nftables-style rule file: which rules it
//! holds, and whether they deny by default, expose SSH, use telnet, allow
//! unrestricted ingress, or log. The file is read by the caller.
use crate::text::{
    contains_str, decimal, has_infix, lines, lowercase, push_decimal, push_str, split_lines,
    to_lowercase, trim, trim_str,
};
use vstd::prelude::*;
use vstd::string::*;

verus! {

pub struct FirewallAuditReport {
    pub file: String,
    pub rules_analyzed: usize,
    pub findings: Vec<Finding>,
}

pub struct Finding {
    pub check: String,
    pub status: String,
    pub detail: String,
}

pub struct FirewallAuditInput {
    pub file_path: String,
}

/// A finding as three texts: check, status, detail.
pub type FindingView = (Seq<char>, Seq<char>, Seq<char>);

impl View for Finding {
    type V = FindingView;

    open spec fn view(&self) -> FindingView {
        (self.check@, self.status@, self.detail@)
    }
}

pub open spec fn findings_view(v: Seq<Finding>) -> Seq<FindingView> {
    v.map_values(|f: Finding| f@)
}

/// What one rule, or a whole file, shows.
#[derive(Clone, Copy)]
pub struct RuleSignals {
    pub default_deny: bool,
    pub ssh_open: bool,
    pub telnet: bool,
    pub unrestricted_ingress: bool,
    pub logging: bool,
}

pub open spec fn no_signals() -> RuleSignals {
    RuleSignals {
        default_deny: false,
        ssh_open: false,
        telnet: false,
        unrestricted_ingress: false,
        logging: false,
    }
}

pub open spec fn either(a: RuleSignals, b: RuleSignals) -> RuleSignals {
    RuleSignals {
        default_deny: a.default_deny || b.default_deny,
        ssh_open: a.ssh_open || b.ssh_open,
        telnet: a.telnet || b.telnet,
        unrestricted_ingress: a.unrestricted_ingress || b.unrestricted_ingress,
        logging: a.logging || b.logging,
    }
}

/// What a rule shows, read from its lowercased text.
pub open spec fn signals_of(l: Seq<char>) -> RuleSignals {
    RuleSignals {
        default_deny: has_infix(l, "default"@) && (has_infix(l, "drop"@) || has_infix(l, "deny"@)),
        ssh_open: (has_infix(l, "22"@) || has_infix(l, "ssh"@)) && (has_infix(l, "accept"@)
            || has_infix(l, "allow"@)) && (has_infix(l, "any"@) || has_infix(l, "0.0.0.0/0"@)
            || has_infix(l, "::/0"@)),
        telnet: has_infix(l, "23"@) || has_infix(l, "telnet"@),
        unrestricted_ingress: (has_infix(l, "accept"@) || has_infix(l, "allow"@) || has_infix(
            l,
            "inbound"@,
        )) && (has_infix(l, "any"@) || has_infix(l, "0.0.0.0/0"@) || has_infix(l, "all"@)) && (
        has_infix(l, "input"@) || has_infix(l, "ingress"@) || has_infix(l, "from any"@)),
        logging: has_infix(l, "log"@) || has_infix(l, "audit"@) || has_infix(l, "record"@),
    }
}

/// A trimmed line is a rule unless it is blank or a `#` or `;` comment.
pub open spec fn is_rule(t: Seq<char>) -> bool {
    t.len() > 0 && t[0] != '#' && t[0] != ';'
}

/// How many of `ls` are rules, and what the rules show together.
pub open spec fn rules_summary(ls: Seq<Seq<char>>) -> (nat, RuleSignals)
    decreases ls.len(),
{
    if ls.len() == 0 {
        (0, no_signals())
    } else {
        let (n, s) = rules_summary(ls.drop_last());
        let t = trim(ls.last());
        if is_rule(t) {
            (n + 1, either(s, signals_of(lowercase(t))))
        } else {
            (n, s)
        }
    }
}

pub open spec fn findings_for(s: RuleSignals, rules: nat, file: Seq<char>) -> Seq<FindingView> {
    seq![
        if s.default_deny {
            (
                "Default Deny Policy"@,
                "PASS"@,
                "Firewall uses a default deny/drop policy for unmatched traffic"@,
            )
        } else {
            (
                "Default Deny Policy"@,
                "FAIL"@,
                "No default deny policy detected. All unmatched traffic may be allowed by default."@,
            )
        },
        if s.ssh_open {
            (
                "SSH Access"@,
                "WARN"@,
                "SSH (port 22) appears open to all sources. Restrict to known IPs or use a bastion host."@,
            )
        } else {
            ("SSH Access"@, "PASS"@, "SSH access appears restricted to specific sources."@)
        },
        if s.telnet {
            (
                "Telnet Usage"@,
                "FAIL"@,
                "Telnet (port 23) detected. Telnet transmits credentials in plaintext. Use SSH instead."@,
            )
        } else {
            ("Telnet Usage"@, "PASS"@, "No telnet usage detected in firewall rules."@)
        },
        if s.unrestricted_ingress {
            (
                "Ingress Restrictions"@,
                "WARN"@,
                "Unrestricted ingress rules detected. Only allow necessary ports and sources."@,
            )
        } else {
            ("Ingress Restrictions"@, "PASS"@, "No unrestricted ingress rules detected."@)
        },
        if s.logging {
            (
                "Logging Enabled"@,
                "PASS"@,
                "Firewall logging appears enabled. Ensure logs are centralized and monitored."@,
            )
        } else {
            (
                "Logging Enabled"@,
                "WARN"@,
                "No explicit logging rules found. Enable logging for denied traffic and anomalies."@,
            )
        },
        (
            "Configuration Summary"@,
            "INFO"@,
            "Analyzed "@ + decimal(rules) + " lines from "@ + file
                + ". This is a basic heuristic scan\u{2014}manual review recommended."@,
        ),
    ]
}

// ---------------------------------------------------------------------------
// Laws
// ---------------------------------------------------------------------------

/// No more rules are counted than there are lines.
pub proof fn law_rules_within_lines(ls: Seq<Seq<char>>)
    ensures
        rules_summary(ls).0 <= ls.len(),
    decreases ls.len(),
{
    if ls.len() > 0 {
        law_rules_within_lines(ls.drop_last());
    }
}

/// Comment and blank lines change nothing: adding one keeps the count and
/// what the rules show.
pub proof fn law_comments_are_ignored(ls: Seq<Seq<char>>, line: Seq<char>)
    requires
        !is_rule(trim(line)),
    ensures
        rules_summary(ls.push(line)) == rules_summary(ls),
{
    assert(ls.push(line).drop_last() =~= ls);
}

/// The rule lines of `ls`: those that are neither blank nor comments once trimmed.
pub open spec fn kept_lines(ls: Seq<Seq<char>>) -> Seq<Seq<char>> {
    ls.filter(|l: Seq<char>| is_rule(trim(l)))
}

proof fn lemma_summary_of_kept(ls: Seq<Seq<char>>)
    ensures
        rules_summary(ls) == rules_summary(kept_lines(ls)),
    decreases ls.len(),
{
    if ls.len() > 0 {
        let init = ls.drop_last();
        let x = ls.last();
        lemma_summary_of_kept(init);
        assert(ls =~= init.push(x));
        init.lemma_filter_push(x, |l: Seq<char>| is_rule(trim(l)));
        if is_rule(trim(x)) {
            assert(kept_lines(ls).drop_last() =~= kept_lines(init));
            assert(kept_lines(ls).last() == x);
        }
    }
}

/// Two rule files whose rule lines are the same, in the same order, give
/// the same count and the same findings: blank and comment lines, wherever
/// they stand, change nothing.
pub proof fn law_comment_lines_do_not_matter(content1: Seq<char>, content2: Seq<char>, file: Seq<char>)
    requires
        kept_lines(lines(content1)) == kept_lines(lines(content2)),
    ensures
        rules_summary(lines(content1)) == rules_summary(lines(content2)),
        findings_for(rules_summary(lines(content1)).1, rules_summary(lines(content1)).0, file)
            == findings_for(rules_summary(lines(content2)).1, rules_summary(lines(content2)).0, file),
{
    lemma_summary_of_kept(lines(content1));
    lemma_summary_of_kept(lines(content2));
}

/// Every report has one finding for each of the five checks, in a fixed
/// order, and the summary last.
pub proof fn law_six_findings(s: RuleSignals, rules: nat, file: Seq<char>)
    ensures
        findings_for(s, rules, file).len() == 6,
        findings_for(s, rules, file)[0].0 == "Default Deny Policy"@,
        findings_for(s, rules, file)[5].0 == "Configuration Summary"@,
{
}

// ---------------------------------------------------------------------------
// Executable
// ---------------------------------------------------------------------------

fn finding(check: &str, status: &str, detail: &str) -> (f: Finding)
    ensures
        f@ == (check@, status@, detail@),
{
    Finding {
        check: String::from_str(check),
        status: String::from_str(status),
        detail: String::from_str(detail),
    }
}

/// What one rule shows, from its lowercased text.
pub fn rule_signals(lower: &str) -> (s: RuleSignals)
    ensures
        s == signals_of(lower@),
{
    let any_source = contains_str(lower, "any") || contains_str(lower, "0.0.0.0/0");
    let allows = contains_str(lower, "accept") || contains_str(lower, "allow");
    RuleSignals {
        default_deny: contains_str(lower, "default") && (contains_str(lower, "drop")
            || contains_str(lower, "deny")),
        ssh_open: (contains_str(lower, "22") || contains_str(lower, "ssh")) && allows && (any_source
            || contains_str(lower, "::/0")),
        telnet: contains_str(lower, "23") || contains_str(lower, "telnet"),
        unrestricted_ingress: (allows || contains_str(lower, "inbound")) && (any_source
            || contains_str(lower, "all")) && (contains_str(lower, "input") || contains_str(
            lower,
            "ingress",
        ) || contains_str(lower, "from any")),
        logging: contains_str(lower, "log") || contains_str(lower, "audit") || contains_str(
            lower,
            "record",
        ),
    }
}

fn is_rule_text(t: &str) -> (r: bool)
    ensures
        r == is_rule(t@),
{
    if t.is_empty() {
        return false;
    }
    let c = t.get_char(0);
    c != '#' && c != ';'
}

/// Counts the rules of `content` and gathers what they show.
pub fn scan_rules(content: &str) -> (r: (usize, RuleSignals))
    ensures
        (r.0 as nat, r.1) == rules_summary(lines(content@)),
{
    let ls = split_lines(content);
    let ghost views = ls@.map_values(|l: String| l@);
    let mut count: usize = 0;
    let mut acc = RuleSignals {
        default_deny: false,
        ssh_open: false,
        telnet: false,
        unrestricted_ingress: false,
        logging: false,
    };
    let mut i: usize = 0;
    assert(views.take(0) =~= Seq::<Seq<char>>::empty());
    while i < ls.len()
        invariant
            i <= ls.len(),
            views == ls@.map_values(|l: String| l@),
            views == lines(content@),
            (count as nat, acc) == rules_summary(views.take(i as int)),
            count <= i,
        decreases ls.len() - i,
    {
        assert(views.take(i + 1).drop_last() =~= views.take(i as int));
        assert(views.take(i + 1).last() == ls@[i as int]@);
        let t = trim_str(ls[i].as_str());
        if is_rule_text(t.as_str()) {
            let lower = to_lowercase(t.as_str());
            let s = rule_signals(lower.as_str());
            acc =
            RuleSignals {
                default_deny: acc.default_deny || s.default_deny,
                ssh_open: acc.ssh_open || s.ssh_open,
                telnet: acc.telnet || s.telnet,
                unrestricted_ingress: acc.unrestricted_ingress || s.unrestricted_ingress,
                logging: acc.logging || s.logging,
            };
            count = count + 1;
        }
        i = i + 1;
    }
    assert(views.take(ls.len() as int) =~= views);
    (count, acc)
}

/// The findings for what the rules of `file` show.
pub fn firewall_findings(s: RuleSignals, rules: usize, file: &str) -> (v: Vec<Finding>)
    ensures
        findings_view(v@) == findings_for(s, rules as nat, file@),
{
    let mut v: Vec<Finding> = Vec::new();
    if s.default_deny {
        v.push(
            finding(
                "Default Deny Policy",
                "PASS",
                "Firewall uses a default deny/drop policy for unmatched traffic",
            ),
        );
    } else {
        v.push(
            finding(
                "Default Deny Policy",
                "FAIL",
                "No default deny policy detected. All unmatched traffic may be allowed by default.",
            ),
        );
    }
    if s.ssh_open {
        v.push(
            finding(
                "SSH Access",
                "WARN",
                "SSH (port 22) appears open to all sources. Restrict to known IPs or use a bastion host.",
            ),
        );
    } else {
        v.push(finding("SSH Access", "PASS", "SSH access appears restricted to specific sources."));
    }
    if s.telnet {
        v.push(
            finding(
                "Telnet Usage",
                "FAIL",
                "Telnet (port 23) detected. Telnet transmits credentials in plaintext. Use SSH instead.",
            ),
        );
    } else {
        v.push(finding("Telnet Usage", "PASS", "No telnet usage detected in firewall rules."));
    }
    if s.unrestricted_ingress {
        v.push(
            finding(
                "Ingress Restrictions",
                "WARN",
                "Unrestricted ingress rules detected. Only allow necessary ports and sources.",
            ),
        );
    } else {
        v.push(finding("Ingress Restrictions", "PASS", "No unrestricted ingress rules detected."));
    }
    if s.logging {
        v.push(
            finding(
                "Logging Enabled",
                "PASS",
                "Firewall logging appears enabled. Ensure logs are centralized and monitored.",
            ),
        );
    } else {
        v.push(
            finding(
                "Logging Enabled",
                "WARN",
                "No explicit logging rules found. Enable logging for denied traffic and anomalies.",
            ),
        );
    }
    let mut detail = String::from_str("Analyzed ");
    push_decimal(&mut detail, rules as u64);
    push_str(&mut detail, " lines from ");
    push_str(&mut detail, file);
    push_str(&mut detail, ". This is a basic heuristic scan\u{2014}manual review recommended.");
    v.push(Finding {
        check: String::from_str("Configuration Summary"),
        status: String::from_str("INFO"),
        detail,
    });
    assert(findings_view(v@) =~= findings_for(s, rules as nat, file@));
    v
}

/// The audit report of the firewall configuration `content`, read from
/// `file_path`: the number of rule lines, and one finding per check
/// followed by a summary.
pub fn firewall_report(file_path: String, content: &str) -> (r: FirewallAuditReport)
    ensures
        r.file@ == file_path@,
        r.rules_analyzed as nat == rules_summary(lines(content@)).0,
        findings_view(r.findings@) == findings_for(
            rules_summary(lines(content@)).1,
            rules_summary(lines(content@)).0,
            file_path@,
        ),
{
    let (rules, signals) = scan_rules(content);
    let findings = firewall_findings(signals, rules, file_path.as_str());
    FirewallAuditReport { file: file_path, rules_analyzed: rules, findings }
}

} // verus!
