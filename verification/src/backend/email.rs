//! DNS and e-mail security audit: SPF, DMARC and MX records of a domain,
//! rated GOOD, FAIR or POOR. The resolver and its lookups belong to the
//! caller.
use crate::backend::findings::{
    advise, cat, cat3, findings_view, note, text, AuditData, AuditResultEnvelope, EmailAuditData,
    Finding, FindingView,
};
use crate::text::{
    decimal, has_infix, has_prefix, lowercase, push_decimal, push_str, starts_with_str, strip_both,
    strip_end, contains_str, to_lowercase, trim, trim_end_matches_char, trim_matches_char, trim_str,
    Strip,
};
use vstd::prelude::*;
use vstd::string::*;

verus! {

pub open spec fn texts_view(v: Seq<String>) -> Seq<Seq<char>> {
    v.map_values(|s: String| s@)
}

pub open spec fn lookup_view(r: Result<Vec<String>, String>) -> Result<Seq<Seq<char>>, Seq<char>> {
    match r {
        Ok(v) => Ok(texts_view(v@)),
        Err(e) => Err(e@),
    }
}

/// The domain as the audit uses it: trimmed, without trailing dots, lowercased.
pub open spec fn normalized_domain(raw: Seq<char>) -> Seq<char> {
    lowercase(strip_end(trim(raw), Strip::Char('.')))
}

/// A TXT record's text without the quotes around it.
pub open spec fn unquote(t: Seq<char>) -> Seq<char> {
    strip_both(t, Strip::Char('"'))
}

/// The first of `ts` that begins with `p`.
pub open spec fn first_with_prefix(ts: Seq<Seq<char>>, p: Seq<char>) -> Option<Seq<char>>
    decreases ts.len(),
{
    if ts.len() == 0 {
        None
    } else if has_prefix(ts[0], p) {
        Some(ts[0])
    } else {
        first_with_prefix(ts.drop_first(), p)
    }
}

pub open spec fn unquoted(records: Seq<Seq<char>>) -> Seq<Seq<char>> {
    records.map_values(|t: Seq<char>| unquote(t))
}

/// The findings on an SPF record `rec`, whose lowercase text is `lower`, and its points.
pub open spec fn spf_record_outcome(rec: Seq<char>, lower: Seq<char>) -> (Seq<FindingView>, int) {
    let found = ("INFO"@, "SPF Record Found"@, "SPF: "@ + rec, None::<Seq<char>>);
    let (policy, points): (Seq<FindingView>, int) = if has_infix(lower, "-all"@) {
        (
            seq![("GOOD"@, "SPF Uses Strict Policy"@, "SPF ends with -all (reject)."@, None)],
            3,
        )
    } else if has_infix(lower, "~all"@) {
        (
            seq![
                (
                    "LOW"@,
                    "SPF Uses Soft Fail"@,
                    "SPF ends with ~all (softfail). Consider -all."@,
                    Some("Change ~all to -all for stricter validation."@),
                ),
            ],
            2,
        )
    } else if !has_infix(lower, "all"@) {
        (
            seq![
                (
                    "MEDIUM"@,
                    "SPF Missing Policy Qualifier"@,
                    "SPF record doesn't specify what to do with unmatched senders."@,
                    Some("Add ~all or -all at the end of your SPF record."@),
                ),
            ],
            2,
        )
    } else {
        (Seq::empty(), 2)
    };
    if has_infix(rec, "+all"@) || has_infix(rec, "all"@) {
        (
            seq![found] + policy + seq![
                (
                    "HIGH"@,
                    "SPF Allows Any Sender"@,
                    "SPF contains +all or unqualified all."@,
                    Some("Restrict SPF to known sending IPs/domains."@),
                ),
            ],
            0,
        )
    } else {
        (seq![found] + policy, points)
    }
}

/// The SPF findings and points for the TXT lookup of `domain`.
pub open spec fn spf_outcome(lookup: Result<Seq<Seq<char>>, Seq<char>>, domain: Seq<char>) -> (
    Seq<FindingView>,
    int,
) {
    match lookup {
        Ok(records) => match first_with_prefix(unquoted(records), "v=spf1"@) {
            Some(rec) => spf_record_outcome(rec, lowercase(rec)),
            None => (
                seq![
                    (
                        "HIGH"@,
                        "No SPF Record Found"@,
                        "No SPF TXT record for "@ + domain + ". Email spoofing risk."@,
                        Some("Add an SPF record specifying authorized sending IPs/domains."@),
                    ),
                ],
                0,
            ),
        },
        Err(e) => (
            seq![("MEDIUM"@, "Could Not Query SPF"@, "TXT lookup failed: "@ + e, None)],
            0,
        ),
    }
}

/// The findings on a DMARC record `rec`, whose lowercase text is `lower`, and its points.
pub open spec fn dmarc_record_outcome(rec: Seq<char>, lower: Seq<char>) -> (
    Seq<FindingView>,
    int,
) {
    let found = ("INFO"@, "DMARC Record Found"@, "DMARC: "@ + rec, None::<Seq<char>>);
    if has_infix(lower, "p=reject"@) {
        (
            seq![
                found,
                (
                    "GOOD"@,
                    "DMARC Uses Reject Policy"@,
                    "DMARC p=reject blocks failing emails."@,
                    None,
                ),
            ],
            4,
        )
    } else if has_infix(lower, "p=quarantine"@) {
        (
            seq![
                found,
                (
                    "LOW"@,
                    "DMARC Uses Quarantine Policy"@,
                    "DMARC p=quarantine sends failing emails to spam."@,
                    Some("Consider upgrading to p=reject when confident."@),
                ),
            ],
            3,
        )
    } else if has_infix(lower, "p=none"@) {
        (
            seq![
                found,
                (
                    "MEDIUM"@,
                    "DMARC in Monitoring Mode Only"@,
                    "DMARC p=none does not block spoofed emails."@,
                    Some("Move to p=quarantine or p=reject for enforcement."@),
                ),
            ],
            2,
        )
    } else {
        (seq![found], 2)
    }
}

/// The DMARC findings and points for the TXT lookup of `dmarc_domain`.
pub open spec fn dmarc_outcome(
    lookup: Result<Seq<Seq<char>>, Seq<char>>,
    dmarc_domain: Seq<char>,
) -> (Seq<FindingView>, int) {
    match lookup {
        Ok(records) => match first_with_prefix(unquoted(records), "v=dmarc1"@) {
            Some(rec) => dmarc_record_outcome(rec, lowercase(rec)),
            None => (
                seq![
                    (
                        "HIGH"@,
                        "No DMARC Record Found"@,
                        "No DMARC record at "@ + dmarc_domain + ". Higher phishing risk."@,
                        Some("Publish a DMARC record at _dmarc.yourdomain.com."@),
                    ),
                ],
                0,
            ),
        },
        Err(e) => (
            seq![("MEDIUM"@, "Could Not Query DMARC"@, "DMARC lookup failed: "@ + e, None)],
            0,
        ),
    }
}

/// The MX finding and points for the number of MX records found.
pub open spec fn mx_outcome(lookup: Result<nat, Seq<char>>) -> (FindingView, int) {
    match lookup {
        Ok(count) => (
            (
                "INFO"@,
                "MX Records Found"@,
                "Found "@ + decimal(count) + " MX record(s)."@,
                if count == 1 {
                    Some("Consider a secondary MX for redundancy."@)
                } else {
                    None
                },
            ),
            1,
        ),
        Err(e) => (
            (
                "MEDIUM"@,
                "No MX Records Found"@,
                "Failed to query MX: "@ + e,
                Some("Ensure MX records are configured for email delivery."@),
            ),
            0,
        ),
    }
}

pub open spec fn mx_view(r: Result<usize, String>) -> Result<nat, Seq<char>> {
    match r {
        Ok(n) => Ok(n as nat),
        Err(e) => Err(e@),
    }
}

pub open spec fn overall_rating(total: int) -> Seq<char> {
    if total >= 7 {
        "GOOD"@
    } else if total >= 4 {
        "FAIR"@
    } else {
        "POOR"@
    }
}

// ---------------------------------------------------------------------------
// Laws
// ---------------------------------------------------------------------------

/// SPF earns 0 to 3 points, DMARC 0 to 4 and MX 0 or 1, so the total lies
/// between 0 and 8.
pub proof fn law_points_bounded(
    spf: Result<Seq<Seq<char>>, Seq<char>>,
    dmarc: Result<Seq<Seq<char>>, Seq<char>>,
    mx: Result<nat, Seq<char>>,
    domain: Seq<char>,
)
    ensures
        0 <= spf_outcome(spf, domain).1 <= 3,
        0 <= dmarc_outcome(dmarc, "_dmarc."@ + domain).1 <= 4,
        0 <= mx_outcome(mx).1 <= 1,
{
}

/// An SPF record that mentions `all` anywhere earns no points and ends with a
/// HIGH "SPF Allows Any Sender" finding; one that does not earns 2 points,
/// or 3 when its lowercase text holds `-all`.
pub proof fn law_spf_record_points(rec: Seq<char>, lower: Seq<char>)
    ensures
        has_infix(rec, "all"@) ==> spf_record_outcome(rec, lower).1 == 0 && spf_record_outcome(
            rec,
            lower,
        ).0.last() == (
            "HIGH"@,
            "SPF Allows Any Sender"@,
            "SPF contains +all or unqualified all."@,
            Some("Restrict SPF to known sending IPs/domains."@),
        ),
        !has_infix(rec, "all"@) && !has_infix(rec, "+all"@) ==> spf_record_outcome(rec, lower).1
            == if has_infix(lower, "-all"@) {
            3int
        } else {
            2int
        },
        spf_record_outcome(rec, lower).0[0] == ("INFO"@, "SPF Record Found"@, "SPF: "@ + rec, None::<
            Seq<char>,
        >),
{
}

/// A DMARC record earns more than its 2 base points only for an enforcing
/// policy: 4 with `p=reject`, 3 with `p=quarantine` (and no `p=reject`),
/// and exactly 2 otherwise, so a monitoring-only `p=none` record earns less
/// than either enforcing one and is reported as a MEDIUM finding.
pub proof fn law_dmarc_policy_points(rec: Seq<char>, lower: Seq<char>)
    ensures
        dmarc_record_outcome(rec, lower).1 >= 2,
        dmarc_record_outcome(rec, lower).1 > 2 <==> (has_infix(lower, "p=reject"@) || has_infix(
            lower,
            "p=quarantine"@,
        )),
        has_infix(lower, "p=reject"@) ==> dmarc_record_outcome(rec, lower).1 == 4,
        has_infix(lower, "p=quarantine"@) && !has_infix(lower, "p=reject"@)
            ==> dmarc_record_outcome(rec, lower).1 == 3,
        has_infix(lower, "p=none"@) && !has_infix(lower, "p=reject"@) && !has_infix(
            lower,
            "p=quarantine"@,
        ) ==> dmarc_record_outcome(rec, lower).1 == 2 && dmarc_record_outcome(rec, lower).0.len()
            == 2 && dmarc_record_outcome(rec, lower).0[1].0 == "MEDIUM"@,
{
}

/// A domain rated GOOD has a DMARC record whose policy quarantines or
/// rejects failing mail: without one the total stays below 7.
pub proof fn law_good_needs_enforcing_dmarc(
    spf: Result<Seq<Seq<char>>, Seq<char>>,
    dmarc: Result<Seq<Seq<char>>, Seq<char>>,
    mx: Result<nat, Seq<char>>,
    domain: Seq<char>,
)
    requires
        spf_outcome(spf, domain).1 + dmarc_outcome(dmarc, "_dmarc."@ + domain).1 + mx_outcome(mx).1
            >= 7,
    ensures
        dmarc_outcome(dmarc, "_dmarc."@ + domain).1 >= 3,
{
}

// ---------------------------------------------------------------------------
// Executable
// ---------------------------------------------------------------------------

/// The domain as the audit uses it: trimmed, trailing dots removed, lowercased.
pub fn normalize_domain(domain: &str) -> (r: String)
    ensures
        r@ == normalized_domain(domain@),
{
    let trimmed = trim_str(domain);
    let undotted = trim_end_matches_char(trimmed.as_str(), '.');
    to_lowercase(undotted.as_str())
}

/// The name whose TXT records hold the DMARC policy of `domain`.
pub fn dmarc_query_name(domain: &str) -> (r: String)
    ensures
        r@ == "_dmarc."@ + domain@,
{
    cat("_dmarc.", domain)
}

/// The result when the system's DNS configuration cannot be read.
pub fn dns_config_failure(error: String) -> (r: AuditResultEnvelope)
    ensures
        !r.success,
        r.message@ == "Failed to read system DNS config"@,
        r.data matches AuditData::Error { error: e } && e@ == error@,
{
    AuditResultEnvelope {
        success: false,
        message: text("Failed to read system DNS config"),
        data: AuditData::Error { error },
    }
}

/// The first of `records`, unquoted, that begins with `prefix`.
pub fn find_record(records: &Vec<String>, prefix: &str) -> (r: Option<String>)
    ensures
        match r {
            Some(s) => first_with_prefix(unquoted(texts_view(records@)), prefix@) == Some(s@),
            None => first_with_prefix(unquoted(texts_view(records@)), prefix@) is None,
        },
{
    let ghost ts = unquoted(texts_view(records@));
    let mut i: usize = 0;
    assert(ts.skip(0) =~= ts);
    while i < records.len()
        invariant
            i <= records.len(),
            ts == unquoted(texts_view(records@)),
            first_with_prefix(ts, prefix@) == first_with_prefix(ts.skip(i as int), prefix@),
        decreases records.len() - i,
    {
        let t = trim_matches_char(records[i].as_str(), '"');
        assert(ts.skip(i as int)[0] == t@);
        if starts_with_str(t.as_str(), prefix) {
            return Some(t);
        }
        assert(ts.skip(i as int).drop_first() =~= ts.skip(i + 1));
        i = i + 1;
    }
    None
}

/// The findings on an SPF record `rec` whose lowercase text is `lower`, and its points.
pub fn spf_record_findings(rec: &str, lower: &str) -> (r: (Vec<Finding>, i32))
    ensures
        (findings_view(r.0@), r.1 as int) == spf_record_outcome(rec@, lower@),
{
    let mut v: Vec<Finding> = Vec::new();
    v.push(note("INFO", text("SPF Record Found"), cat("SPF: ", rec)));
    let mut score: i32 = 2;
    if contains_str(lower, "-all") {
        v.push(note("GOOD", text("SPF Uses Strict Policy"), text("SPF ends with -all (reject).")));
        score = score + 1;
    } else if contains_str(lower, "~all") {
        v.push(
            advise(
                "LOW",
                text("SPF Uses Soft Fail"),
                text("SPF ends with ~all (softfail). Consider -all."),
                "Change ~all to -all for stricter validation.",
            ),
        );
    } else if !contains_str(lower, "all") {
        v.push(
            advise(
                "MEDIUM",
                text("SPF Missing Policy Qualifier"),
                text("SPF record doesn't specify what to do with unmatched senders."),
                "Add ~all or -all at the end of your SPF record.",
            ),
        );
    }
    if contains_str(rec, "+all") || contains_str(rec, "all") {
        v.push(
            advise(
                "HIGH",
                text("SPF Allows Any Sender"),
                text("SPF contains +all or unqualified all."),
                "Restrict SPF to known sending IPs/domains.",
            ),
        );
        score = 0;
    }
    assert(findings_view(v@) =~= spf_record_outcome(rec@, lower@).0);
    (v, score)
}

fn spf_findings(lookup: &Result<Vec<String>, String>, domain: &str) -> (r: (Vec<Finding>, i32))
    ensures
        (findings_view(r.0@), r.1 as int) == spf_outcome(lookup_view(*lookup), domain@),
{
    match lookup {
        Ok(records) => match find_record(records, "v=spf1") {
            Some(rec) => {
                let lower = to_lowercase(rec.as_str());
                spf_record_findings(rec.as_str(), lower.as_str())
            },
            None => {
                let mut v: Vec<Finding> = Vec::new();
                v.push(
                    advise(
                        "HIGH",
                        text("No SPF Record Found"),
                        cat3("No SPF TXT record for ", domain, ". Email spoofing risk."),
                        "Add an SPF record specifying authorized sending IPs/domains.",
                    ),
                );
                assert(findings_view(v@) =~= spf_outcome(lookup_view(*lookup), domain@).0);
                (v, 0)
            },
        },
        Err(e) => {
            let mut v: Vec<Finding> = Vec::new();
            v.push(note("MEDIUM", text("Could Not Query SPF"), cat("TXT lookup failed: ", e.as_str())));
            assert(findings_view(v@) =~= spf_outcome(lookup_view(*lookup), domain@).0);
            (v, 0)
        },
    }
}

/// The findings on a DMARC record `rec` whose lowercase text is `lower`, and its points.
pub fn dmarc_record_findings(rec: &str, lower: &str) -> (r: (Vec<Finding>, i32))
    ensures
        (findings_view(r.0@), r.1 as int) == dmarc_record_outcome(rec@, lower@),
{
    let mut v: Vec<Finding> = Vec::new();
    v.push(note("INFO", text("DMARC Record Found"), cat("DMARC: ", rec)));
    let mut score: i32 = 2;
    if contains_str(lower, "p=reject") {
        v.push(
            note(
                "GOOD",
                text("DMARC Uses Reject Policy"),
                text("DMARC p=reject blocks failing emails."),
            ),
        );
        score = score + 2;
    } else if contains_str(lower, "p=quarantine") {
        v.push(
            advise(
                "LOW",
                text("DMARC Uses Quarantine Policy"),
                text("DMARC p=quarantine sends failing emails to spam."),
                "Consider upgrading to p=reject when confident.",
            ),
        );
        score = score + 1;
    } else if contains_str(lower, "p=none") {
        v.push(
            advise(
                "MEDIUM",
                text("DMARC in Monitoring Mode Only"),
                text("DMARC p=none does not block spoofed emails."),
                "Move to p=quarantine or p=reject for enforcement.",
            ),
        );
    }
    assert(findings_view(v@) =~= dmarc_record_outcome(rec@, lower@).0);
    (v, score)
}

fn dmarc_findings(lookup: &Result<Vec<String>, String>, dmarc_domain: &str) -> (r: (
    Vec<Finding>,
    i32,
))
    ensures
        (findings_view(r.0@), r.1 as int) == dmarc_outcome(lookup_view(*lookup), dmarc_domain@),
{
    match lookup {
        Ok(records) => match find_record(records, "v=dmarc1") {
            Some(rec) => {
                let lower = to_lowercase(rec.as_str());
                dmarc_record_findings(rec.as_str(), lower.as_str())
            },
            None => {
                let mut v: Vec<Finding> = Vec::new();
                v.push(
                    advise(
                        "HIGH",
                        text("No DMARC Record Found"),
                        cat3("No DMARC record at ", dmarc_domain, ". Higher phishing risk."),
                        "Publish a DMARC record at _dmarc.yourdomain.com.",
                    ),
                );
                assert(findings_view(v@) =~= dmarc_outcome(lookup_view(*lookup), dmarc_domain@).0);
                (v, 0)
            },
        },
        Err(e) => {
            let mut v: Vec<Finding> = Vec::new();
            v.push(
                note("MEDIUM", text("Could Not Query DMARC"), cat("DMARC lookup failed: ", e.as_str())),
            );
            assert(findings_view(v@) =~= dmarc_outcome(lookup_view(*lookup), dmarc_domain@).0);
            (v, 0)
        },
    }
}

fn mx_finding(lookup: &Result<usize, String>) -> (r: (Finding, i32))
    ensures
        (r.0@, r.1 as int) == mx_outcome(mx_view(*lookup)),
{
    match lookup {
        Ok(count) => {
            let mut description = text("Found ");
            push_decimal(&mut description, *count as u64);
            push_str(&mut description, " MX record(s).");
            let f = if *count == 1 {
                advise(
                    "INFO",
                    text("MX Records Found"),
                    description,
                    "Consider a secondary MX for redundancy.",
                )
            } else {
                note("INFO", text("MX Records Found"), description)
            };
            (f, 1)
        },
        Err(e) => (
            advise(
                "MEDIUM",
                text("No MX Records Found"),
                cat("Failed to query MX: ", e.as_str()),
                "Ensure MX records are configured for email delivery.",
            ),
            0,
        ),
    }
}

/// The e-mail audit of `domain` once the lookups are answered: the TXT
/// records of the domain and of its DMARC name, and the number of MX records
/// (or each lookup's error). SPF earns up to 3 points, DMARC up to 4 and MX
/// 1; a total of 7 or more rates GOOD, 4 or more FAIR, less POOR.
pub fn email_audit(
    domain: String,
    spf: Result<Vec<String>, String>,
    dmarc: Result<Vec<String>, String>,
    mx: Result<usize, String>,
) -> (r: AuditResultEnvelope)
    ensures
        r.success,
        r.message@ == "Email security audit for "@ + domain@,
        r.data matches AuditData::Email(d) && {
            let s = spf_outcome(lookup_view(spf), domain@);
            let m = dmarc_outcome(lookup_view(dmarc), "_dmarc."@ + domain@);
            let x = mx_outcome(mx_view(mx));
            &&& d.domain@ == domain@
            &&& findings_view(d.findings@) == s.0 + m.0 + seq![x.0]
            &&& d.spf == s.1 && d.dmarc == m.1 && d.mx == x.1
            &&& d.total == s.1 + m.1 + x.1
            &&& d.overall_score@ == overall_rating(s.1 + m.1 + x.1)
        },
{
    let dmarc_domain = dmarc_query_name(domain.as_str());
    let (mut findings, spf_score) = spf_findings(&spf, domain.as_str());
    let (mut more, dmarc_score) = dmarc_findings(&dmarc, dmarc_domain.as_str());
    let ghost before = findings_view(findings@);
    findings.append(&mut more);
    let (mx_f, mx_score) = mx_finding(&mx);
    findings.push(mx_f);
    assert(findings_view(findings@) =~= before + dmarc_outcome(lookup_view(dmarc), dmarc_domain@).0
        + seq![mx_outcome(mx_view(mx)).0]);
    let total: i32 = spf_score + dmarc_score + mx_score;
    let overall = if total >= 7 {
        text("GOOD")
    } else if total >= 4 {
        text("FAIR")
    } else {
        text("POOR")
    };
    let message = cat("Email security audit for ", domain.as_str());
    AuditResultEnvelope {
        success: true,
        message,
        data: AuditData::Email(
            EmailAuditData {
                domain,
                findings,
                overall_score: overall,
                spf: spf_score,
                dmarc: dmarc_score,
                mx: mx_score,
                total,
            },
        ),
    }
}

} // verus!
