//! Assessment of a firewall or device configuration text for permissive rules,
//! exposed remote access, plaintext protocols, default credentials, debug
//! modes and a missing final deny; rated GOOD, FAIR or POOR.
use crate::backend::findings::{
    advise, findings_view, opt_text, text, AuditData, AuditResultEnvelope, Finding, FindingView,
    FirewallAuditData,
};
use crate::text::{
    contains_str, decimal, has_infix, has_prefix, lines, lowercase, push_decimal, push_str,
    split_lines, starts_with_str, to_lowercase, trim, trim_str,
};
use vstd::prelude::*;
use vstd::string::*;

verus! {

/// A trimmed line that counts as a rule: not blank, and not a `#`, `;` or `!!` comment.
pub open spec fn is_counted_rule(t: Seq<char>) -> bool {
    t.len() > 0 && t[0] != '#' && t[0] != ';' && !has_prefix(t, "!!"@)
}

/// A trimmed line that is neither blank nor a `#` or `;` comment.
pub open spec fn is_real_line(t: Seq<char>) -> bool {
    t.len() > 0 && t[0] != '#' && t[0] != ';'
}

pub open spec fn count_rules(ls: Seq<Seq<char>>) -> nat
    decreases ls.len(),
{
    if ls.len() == 0 {
        0
    } else {
        count_rules(ls.drop_last()) + if is_counted_rule(trim(ls.last())) {
            1nat
        } else {
            0nat
        }
    }
}

/// The last line that is neither blank nor a `#` or `;` comment, untrimmed.
pub open spec fn last_real_line(ls: Seq<Seq<char>>) -> Option<Seq<char>>
    decreases ls.len(),
{
    if ls.len() == 0 {
        None
    } else if is_real_line(trim(ls.last())) {
        Some(ls.last())
    } else {
        last_real_line(ls.drop_last())
    }
}

pub open spec fn permissive(l: Seq<char>) -> bool {
    has_infix(l, "allow any"@) || has_infix(l, "permit any any"@) || has_infix(l, "accept all"@)
}

pub open spec fn remote_access_open(l: Seq<char>) -> bool {
    (has_infix(l, "0.0.0.0/0"@) || has_infix(l, "::/0"@)) && (has_infix(l, "port 22"@)
        || has_infix(l, "port 3389"@) || has_infix(l, "dport 22"@) || has_infix(l, "dport 3389"@))
}

pub open spec fn telnet_allowed(l: Seq<char>) -> bool {
    has_infix(l, "telnet"@) || has_infix(l, "port 23"@) || has_infix(l, "dport 23"@)
}

pub open spec fn plain_ftp(l: Seq<char>) -> bool {
    has_infix(l, "ftp"@) && !has_infix(l, "sftp"@) && !has_infix(l, "ftps"@)
}

pub open spec fn default_credentials(l: Seq<char>) -> bool {
    has_infix(l, "password admin"@) || has_infix(l, "password default"@) || has_infix(
        l,
        "password = admin"@,
    )
}

pub open spec fn debug_enabled(l: Seq<char>) -> bool {
    has_infix(l, "promiscuous"@) || has_infix(l, "enable debug"@) || has_infix(l, "debug all"@)
}

/// The last real line, lowercased as `last_lower`, does not deny, and there
/// are more than five rules.
pub open spec fn deny_missing(last_lower: Option<Seq<char>>, rules: nat) -> bool {
    match last_lower {
        Some(ll) => !has_infix(ll, "deny"@) && !has_infix(ll, "drop"@) && !has_infix(ll, "reject"@)
            && rules > 5,
        None => false,
    }
}

pub open spec fn when(c: bool, f: FindingView) -> Seq<FindingView> {
    if c {
        seq![f]
    } else {
        Seq::empty()
    }
}

/// The issues found in a configuration whose lowercase text is `l`.
pub open spec fn issues(l: Seq<char>, last_lower: Option<Seq<char>>, rules: nat) -> Seq<
    FindingView,
> {
    when(
        permissive(l),
        (
            "CRITICAL"@,
            "Overly Permissive Allow Rule"@,
            "Rule allows traffic from any source to any destination."@,
            Some("Scope rules to specific networks, ports, and protocols."@),
        ),
    ) + when(
        remote_access_open(l),
        (
            "HIGH"@,
            "Remote Access Open to the Internet"@,
            "SSH or RDP is exposed to 0.0.0.0/0."@,
            Some("Restrict remote access to known IPs or use a VPN."@),
        ),
    ) + when(
        telnet_allowed(l),
        (
            "HIGH"@,
            "Telnet (Port 23) Allowed"@,
            "Telnet sends data and credentials in plaintext."@,
            Some("Replace Telnet access with SSH."@),
        ),
    ) + when(
        plain_ftp(l),
        (
            "HIGH"@,
            "Unencrypted FTP Detected"@,
            "Standard FTP transmits data without encryption."@,
            Some("Use SFTP or FTPS instead."@),
        ),
    ) + when(
        default_credentials(l),
        (
            "CRITICAL"@,
            "Potential Default Credentials"@,
            "Configuration may contain default or weak passwords."@,
            Some("Change all default passwords immediately."@),
        ),
    ) + when(
        debug_enabled(l),
        (
            "MEDIUM"@,
            "Debug/Promiscuous Mode Enabled"@,
            "Debug or promiscuous mode can leak information."@,
            Some("Disable debug features in production."@),
        ),
    ) + when(
        deny_missing(last_lower, rules),
        (
            "MEDIUM"@,
            "No Explicit Default-Deny Rule"@,
            "Firewall rules do not end with an explicit deny-all rule."@,
            Some("Add a default-deny rule at the end of the rule chain."@),
        ),
    )
}

/// The findings: the issues, or a note that there are none.
pub open spec fn reported(l: Seq<char>, last_lower: Option<Seq<char>>, rules: nat) -> Seq<
    FindingView,
> {
    if issues(l, last_lower, rules).len() == 0 {
        seq![
            (
                "INFO"@,
                "No Issues Detected"@,
                "Analyzed "@ + decimal(rules) + " rules; no obvious problems found."@,
                Some("Continue periodic reviews."@),
            ),
        ]
    } else {
        issues(l, last_lower, rules)
    }
}

/// POOR with a critical issue, FAIR with a high one, else GOOD.
pub open spec fn firewall_rating(l: Seq<char>) -> Seq<char> {
    if permissive(l) || default_credentials(l) {
        "POOR"@
    } else if remote_access_open(l) || telnet_allowed(l) || plain_ftp(l) {
        "FAIR"@
    } else {
        "GOOD"@
    }
}

pub open spec fn opt_lowercase(o: Option<Seq<char>>) -> Option<Seq<char>> {
    match o {
        Some(t) => Some(lowercase(t)),
        None => None,
    }
}

// ---------------------------------------------------------------------------
// Laws
// ---------------------------------------------------------------------------

/// The findings are never empty: without issues they say so.
pub proof fn law_never_silent(l: Seq<char>, last_lower: Option<Seq<char>>, rules: nat)
    ensures
        reported(l, last_lower, rules).len() >= 1,
        issues(l, last_lower, rules).len() > 0 ==> reported(l, last_lower, rules) == issues(
            l,
            last_lower,
            rules,
        ),
{
}

/// No more rules are counted than there are lines.
pub proof fn law_rules_within_lines(ls: Seq<Seq<char>>)
    ensures
        count_rules(ls) <= ls.len(),
    decreases ls.len(),
{
    if ls.len() > 0 {
        law_rules_within_lines(ls.drop_last());
    }
}

/// Some finding of `v` has severity `x`.
pub open spec fn has_severity(v: Seq<FindingView>, x: Seq<char>) -> bool {
    exists|i: int| 0 <= i < v.len() && (#[trigger] v[i]).0 == x
}

proof fn lemma_has_severity_concat(a: Seq<FindingView>, b: Seq<FindingView>, x: Seq<char>)
    ensures
        has_severity(a + b, x) <==> (has_severity(a, x) || has_severity(b, x)),
{
    if has_severity(a + b, x) {
        let i = choose|i: int| 0 <= i < (a + b).len() && (#[trigger] (a + b)[i]).0 == x;
        if i >= a.len() {
            assert(b[i - a.len()] == (a + b)[i]);
        } else {
            assert(a[i] == (a + b)[i]);
        }
    }
    if has_severity(a, x) {
        let i = choose|i: int| 0 <= i < a.len() && (#[trigger] a[i]).0 == x;
        assert((a + b)[i] == a[i]);
    }
    if has_severity(b, x) {
        let i = choose|i: int| 0 <= i < b.len() && (#[trigger] b[i]).0 == x;
        assert((a + b)[a.len() + i] == b[i]);
    }
}

proof fn lemma_has_severity_when(c: bool, f: FindingView, x: Seq<char>)
    ensures
        has_severity(when(c, f), x) <==> (c && f.0 == x),
{
    if c && f.0 == x {
        assert(when(c, f)[0] == f);
    }
}

/// The rating follows the severities of the findings: POOR whenever some
/// finding is CRITICAL (a permissive allow rule, or default credentials such
/// as `password admin`), else FAIR whenever some finding is HIGH, else GOOD.
pub proof fn law_rating_follows_severity(l: Seq<char>, last_lower: Option<Seq<char>>, rules: nat)
    ensures
        has_severity(issues(l, last_lower, rules), "CRITICAL"@) ==> firewall_rating(l) == "POOR"@,
        !has_severity(issues(l, last_lower, rules), "CRITICAL"@) && has_severity(
            issues(l, last_lower, rules),
            "HIGH"@,
        ) ==> firewall_rating(l) == "FAIR"@,
        !has_severity(issues(l, last_lower, rules), "CRITICAL"@) && !has_severity(
            issues(l, last_lower, rules),
            "HIGH"@,
        ) ==> firewall_rating(l) == "GOOD"@,
        has_infix(l, "password admin"@) || has_infix(l, "password default"@) || has_infix(
            l,
            "password = admin"@,
        ) ==> firewall_rating(l) == "POOR"@,
{
    reveal_strlit("CRITICAL");
    reveal_strlit("HIGH");
    reveal_strlit("MEDIUM");
    assert("CRITICAL"@[0] != "HIGH"@[0]);
    assert("CRITICAL"@[0] != "MEDIUM"@[0]);
    assert("HIGH"@[0] != "MEDIUM"@[0]);
    let t1 = (
        "CRITICAL"@,
        "Overly Permissive Allow Rule"@,
        "Rule allows traffic from any source to any destination."@,
        Some("Scope rules to specific networks, ports, and protocols."@),
    );
    let c1 = permissive(l);
    let f1 = when(c1, t1);
    let t2 = (
        "HIGH"@,
        "Remote Access Open to the Internet"@,
        "SSH or RDP is exposed to 0.0.0.0/0."@,
        Some("Restrict remote access to known IPs or use a VPN."@),
    );
    let c2 = remote_access_open(l);
    let f2 = when(c2, t2);
    let t3 = (
        "HIGH"@,
        "Telnet (Port 23) Allowed"@,
        "Telnet sends data and credentials in plaintext."@,
        Some("Replace Telnet access with SSH."@),
    );
    let c3 = telnet_allowed(l);
    let f3 = when(c3, t3);
    let t4 = (
        "HIGH"@,
        "Unencrypted FTP Detected"@,
        "Standard FTP transmits data without encryption."@,
        Some("Use SFTP or FTPS instead."@),
    );
    let c4 = plain_ftp(l);
    let f4 = when(c4, t4);
    let t5 = (
        "CRITICAL"@,
        "Potential Default Credentials"@,
        "Configuration may contain default or weak passwords."@,
        Some("Change all default passwords immediately."@),
    );
    let c5 = default_credentials(l);
    let f5 = when(c5, t5);
    let t6 = (
        "MEDIUM"@,
        "Debug/Promiscuous Mode Enabled"@,
        "Debug or promiscuous mode can leak information."@,
        Some("Disable debug features in production."@),
    );
    let c6 = debug_enabled(l);
    let f6 = when(c6, t6);
    let t7 = (
        "MEDIUM"@,
        "No Explicit Default-Deny Rule"@,
        "Firewall rules do not end with an explicit deny-all rule."@,
        Some("Add a default-deny rule at the end of the rule chain."@),
    );
    let c7 = deny_missing(last_lower, rules);
    let f7 = when(c7, t7);
    assert(issues(l, last_lower, rules) == f1 + f2 + f3 + f4 + f5 + f6 + f7);
    let x1 = "CRITICAL"@;
    let x2 = "HIGH"@;
    lemma_has_severity_concat(f1 + f2 + f3 + f4 + f5 + f6, f7, x1);
    lemma_has_severity_concat(f1 + f2 + f3 + f4 + f5, f6, x1);
    lemma_has_severity_concat(f1 + f2 + f3 + f4, f5, x1);
    lemma_has_severity_concat(f1 + f2 + f3, f4, x1);
    lemma_has_severity_concat(f1 + f2, f3, x1);
    lemma_has_severity_concat(f1, f2, x1);
    lemma_has_severity_concat(f1 + f2 + f3 + f4 + f5 + f6, f7, x2);
    lemma_has_severity_concat(f1 + f2 + f3 + f4 + f5, f6, x2);
    lemma_has_severity_concat(f1 + f2 + f3 + f4, f5, x2);
    lemma_has_severity_concat(f1 + f2 + f3, f4, x2);
    lemma_has_severity_concat(f1 + f2, f3, x2);
    lemma_has_severity_concat(f1, f2, x2);
    lemma_has_severity_when(c1, t1, x1);
    lemma_has_severity_when(c1, t1, x2);
    lemma_has_severity_when(c2, t2, x1);
    lemma_has_severity_when(c2, t2, x2);
    lemma_has_severity_when(c3, t3, x1);
    lemma_has_severity_when(c3, t3, x2);
    lemma_has_severity_when(c4, t4, x1);
    lemma_has_severity_when(c4, t4, x2);
    lemma_has_severity_when(c5, t5, x1);
    lemma_has_severity_when(c5, t5, x2);
    lemma_has_severity_when(c6, t6, x1);
    lemma_has_severity_when(c6, t6, x2);
    lemma_has_severity_when(c7, t7, x1);
    lemma_has_severity_when(c7, t7, x2);
}

/// Without an issue a configuration is rated GOOD.
pub proof fn law_no_issues_is_good(l: Seq<char>, last_lower: Option<Seq<char>>, rules: nat)
    requires
        issues(l, last_lower, rules).len() == 0,
    ensures
        firewall_rating(l) == "GOOD"@,
{
}

// ---------------------------------------------------------------------------
// Executable
// ---------------------------------------------------------------------------

fn first_char_is(t: &str, c: char) -> (r: bool)
    ensures
        r == (t@.len() > 0 && t@[0] == c),
{
    !t.is_empty() && t.get_char(0) == c
}

/// The number of counted rules in `content`, and its last real line.
pub fn rule_lines(content: &str) -> (r: (usize, Option<String>))
    ensures
        r.0 as nat == count_rules(lines(content@)),
        match r.1 {
            Some(s) => last_real_line(lines(content@)) == Some(s@),
            None => last_real_line(lines(content@)) is None,
        },
{
    let ls = split_lines(content);
    let ghost views = ls@.map_values(|l: String| l@);
    let mut count: usize = 0;
    let mut last: Option<String> = None;
    let mut i: usize = 0;
    assert(views.take(0) =~= Seq::<Seq<char>>::empty());
    while i < ls.len()
        invariant
            i <= ls.len(),
            views == ls@.map_values(|l: String| l@),
            views == lines(content@),
            count as nat == count_rules(views.take(i as int)),
            count <= i,
            match last {
                Some(s) => last_real_line(views.take(i as int)) == Some(s@),
                None => last_real_line(views.take(i as int)) is None,
            },
        decreases ls.len() - i,
    {
        assert(views.take(i + 1).drop_last() =~= views.take(i as int));
        assert(views.take(i + 1).last() == ls@[i as int]@);
        let t = trim_str(ls[i].as_str());
        let is_real = !t.as_str().is_empty() && !first_char_is(t.as_str(), '#') && !first_char_is(
            t.as_str(),
            ';',
        );
        if is_real && !starts_with_str(t.as_str(), "!!") {
            count = count + 1;
        }
        if is_real {
            last = Some(ls[i].clone());
        }
        i = i + 1;
    }
    assert(views.take(ls.len() as int) =~= views);
    (count, last)
}

fn push_when(v: &mut Vec<Finding>, c: bool, f: Finding)
    ensures
        findings_view(final(v)@) == findings_view(old(v)@) + when(c, f@),
{
    let ghost before = findings_view(v@);
    if c {
        v.push(f);
        assert(findings_view(v@) =~= before + seq![f@]);
    } else {
        assert(findings_view(v@) =~= before + Seq::<FindingView>::empty());
    }
}

/// The firewall audit of a configuration whose lowercase text is `lower`,
/// with `rules` counted rules and last real line lowercased as `last_lower`.
pub fn firewall_audit_from(lower: &str, rules: usize, last_lower: Option<String>) -> (r:
    AuditResultEnvelope)
    ensures
        ({
            let last = opt_text(last_lower);
            let f = reported(lower@, last, rules as nat);
            &&& r.success
            &&& r.message@ == "Firewall analysis: "@ + decimal(rules as nat) + " rules, "@
                + decimal(f.len()) + " issues"@
            &&& r.data matches AuditData::Firewall(d) && d.rules_count == rules && findings_view(
                d.findings@,
            ) == f && d.overall_score@ == firewall_rating(lower@)
        }),
{
    let ghost last = opt_text(last_lower);
    let mut v: Vec<Finding> = Vec::new();
    let permissive = contains_str(lower, "allow any") || contains_str(lower, "permit any any")
        || contains_str(lower, "accept all");
    push_when(
        &mut v,
        permissive,
        advise(
            "CRITICAL",
            text("Overly Permissive Allow Rule"),
            text("Rule allows traffic from any source to any destination."),
            "Scope rules to specific networks, ports, and protocols.",
        ),
    );
    let remote = (contains_str(lower, "0.0.0.0/0") || contains_str(lower, "::/0")) && (
    contains_str(lower, "port 22") || contains_str(lower, "port 3389") || contains_str(
        lower,
        "dport 22",
    ) || contains_str(lower, "dport 3389"));
    push_when(
        &mut v,
        remote,
        advise(
            "HIGH",
            text("Remote Access Open to the Internet"),
            text("SSH or RDP is exposed to 0.0.0.0/0."),
            "Restrict remote access to known IPs or use a VPN.",
        ),
    );
    let telnet = contains_str(lower, "telnet") || contains_str(lower, "port 23") || contains_str(
        lower,
        "dport 23",
    );
    push_when(
        &mut v,
        telnet,
        advise(
            "HIGH",
            text("Telnet (Port 23) Allowed"),
            text("Telnet sends data and credentials in plaintext."),
            "Replace Telnet access with SSH.",
        ),
    );
    let ftp = contains_str(lower, "ftp") && !contains_str(lower, "sftp") && !contains_str(
        lower,
        "ftps",
    );
    push_when(
        &mut v,
        ftp,
        advise(
            "HIGH",
            text("Unencrypted FTP Detected"),
            text("Standard FTP transmits data without encryption."),
            "Use SFTP or FTPS instead.",
        ),
    );
    let credentials = contains_str(lower, "password admin") || contains_str(
        lower,
        "password default",
    ) || contains_str(lower, "password = admin");
    push_when(
        &mut v,
        credentials,
        advise(
            "CRITICAL",
            text("Potential Default Credentials"),
            text("Configuration may contain default or weak passwords."),
            "Change all default passwords immediately.",
        ),
    );
    let debug = contains_str(lower, "promiscuous") || contains_str(lower, "enable debug")
        || contains_str(lower, "debug all");
    push_when(
        &mut v,
        debug,
        advise(
            "MEDIUM",
            text("Debug/Promiscuous Mode Enabled"),
            text("Debug or promiscuous mode can leak information."),
            "Disable debug features in production.",
        ),
    );
    let no_deny = match &last_lower {
        Some(ll) => !contains_str(ll.as_str(), "deny") && !contains_str(ll.as_str(), "drop")
            && !contains_str(ll.as_str(), "reject") && rules > 5,
        None => false,
    };
    push_when(
        &mut v,
        no_deny,
        advise(
            "MEDIUM",
            text("No Explicit Default-Deny Rule"),
            text("Firewall rules do not end with an explicit deny-all rule."),
            "Add a default-deny rule at the end of the rule chain.",
        ),
    );
    assert(findings_view(v@) =~= issues(lower@, last, rules as nat));
    let overall = if permissive || credentials {
        text("POOR")
    } else if remote || telnet || ftp {
        text("FAIR")
    } else {
        text("GOOD")
    };
    if v.len() == 0 {
        let mut description = text("Analyzed ");
        push_decimal(&mut description, rules as u64);
        push_str(&mut description, " rules; no obvious problems found.");
        v.push(
            advise("INFO", text("No Issues Detected"), description, "Continue periodic reviews."),
        );
        assert(findings_view(v@) =~= reported(lower@, last, rules as nat));
    }
    let mut message = text("Firewall analysis: ");
    push_decimal(&mut message, rules as u64);
    push_str(&mut message, " rules, ");
    push_decimal(&mut message, v.len() as u64);
    push_str(&mut message, " issues");
    AuditResultEnvelope {
        success: true,
        message,
        data: AuditData::Firewall(
            FirewallAuditData { rules_count: rules, findings: v, overall_score: overall },
        ),
    }
}

/// The firewall audit of the configuration text `content`.
pub fn analyze_firewall(content: String) -> (r: AuditResultEnvelope)
    ensures
        ({
            let rules = count_rules(lines(content@));
            let f = reported(
                lowercase(content@),
                opt_lowercase(last_real_line(lines(content@))),
                rules,
            );
            &&& r.success
            &&& r.message@ == "Firewall analysis: "@ + decimal(rules) + " rules, "@ + decimal(
                f.len(),
            ) + " issues"@
            &&& r.data matches AuditData::Firewall(d) && d.rules_count == rules && findings_view(
                d.findings@,
            ) == f && d.overall_score@ == firewall_rating(lowercase(content@))
        }),
{
    let lower = to_lowercase(content.as_str());
    let (rules, last) = rule_lines(content.as_str());
    let last_lower = match last {
        Some(l) => Some(to_lowercase(l.as_str())),
        None => None,
    };
    firewall_audit_from(lower.as_str(), rules, last_lower)
}

} // verus!
