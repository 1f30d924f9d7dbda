//! What the export commands write: the name of an HTML report file, and a
//! JSON report re-rendered in pretty form.
use crate::backend::findings::{cat, cat3};
use vstd::prelude::*;
use vstd::string::*;

verus! {

/// Whether `serde_json::from_str::<serde_json::Value>` accepts `text`.
pub uninterp spec fn json_accepts(text: Seq<char>) -> bool;

/// What the `Display` of the error that `serde_json::from_str` reports for
/// `text` writes.
pub uninterp spec fn json_parse_error(text: Seq<char>) -> Seq<char>;

/// What `serde_json::to_string_pretty` writes for the value that
/// `serde_json::from_str` reads from `text`.
pub uninterp spec fn json_pretty(text: Seq<char>) -> Seq<char>;

/// Calls `serde_json::from_str::<serde_json::Value>` on `data` and renders
/// the parse error with `to_string`; hands an accepted value to
/// `serde_json::to_string_pretty`. The outer `Err` holds the parse error's
/// text, the inner result what rendering gave. Rendering a parsed `Value`
/// does not fail (its map keys are strings and the output is a byte vector),
/// so the inner result is always `Ok`. Parsing and rendering depend on the
/// text alone, so their results are named over it.
#[verifier::external_body]
fn parse_and_render(data: &str) -> (r: Result<Result<String, String>, String>)
    ensures
        r is Ok <==> json_accepts(data@),
        r matches Err(m) ==> m@ == json_parse_error(data@),
        r matches Ok(inner) ==> (inner matches Ok(t) && t@ == json_pretty(data@)),
{
    match serde_json::from_str::<serde_json::Value>(data) {
        Ok(value) => Ok(serde_json::to_string_pretty(&value).map_err(|e| e.to_string())),
        Err(e) => Err(e.to_string()),
    }
}

/// The file name of an HTML report made at `timestamp`.
pub fn report_file_name(timestamp: &str) -> (r: String)
    ensures
        r@ == "ency-audit-report-"@ + timestamp@ + ".html"@,
{
    cat3("ency-audit-report-", timestamp, ".html")
}

/// The JSON text `data` in pretty form, ready to be written, or, when
/// `data` is not JSON, `Invalid JSON: ` followed by the parser's message.
pub fn pretty_json_report(data: &str) -> (r: Result<String, String>)
    ensures
        json_accepts(data@) ==> (r matches Ok(t) && t@ == json_pretty(data@)),
        !json_accepts(data@) ==> (r matches Err(m) && m@ == "Invalid JSON: "@ + json_parse_error(
            data@,
        )),
{
    json_report_from(parse_and_render(data))
}

/// The report for what parsing and rendering gave: the pretty text, or the
/// parse error or rendering error behind its heading.
pub fn json_report_from(outcome: Result<Result<String, String>, String>) -> (r: Result<
    String,
    String,
>)
    ensures
        outcome matches Err(m) ==> (r matches Err(e) && e@ == "Invalid JSON: "@ + m@),
        outcome matches Ok(Ok(t)) ==> (r matches Ok(u) && u@ == t@),
        outcome matches Ok(Err(m)) ==> (r matches Err(e) && e@ == "Failed to format JSON: "@
            + m@),
{
    match outcome {
        Err(message) => Err(cat("Invalid JSON: ", message.as_str())),
        Ok(Ok(text)) => Ok(text),
        Ok(Err(message)) => Err(cat("Failed to format JSON: ", message.as_str())),
    }
}

} // verus!
