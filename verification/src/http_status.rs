//! HTTP status codes and response header values, as the `http` types that
//! `reqwest` hands out present them.
use vstd::prelude::*;

verus! {

/// What `Display` writes for the `reqwest::StatusCode` made from `code`
/// (the code and its canonical reason phrase), or, for a number that is no
/// status code, what the refusal's `Display` writes.
pub uninterp spec fn status_display(code: u16) -> Seq<char>;

/// Calls `reqwest::StatusCode::from_u16` and renders the status, or the
/// refusal, with `to_string`. The reason phrases come from the crate's
/// table, so the contract only names the text.
#[verifier::external_body]
pub(crate) fn status_line(code: u16) -> (r: String)
    ensures
        r@ == status_display(code),
{
    match reqwest::StatusCode::from_u16(code) {
        Ok(status) => status.to_string(),
        Err(e) => e.to_string(),
    }
}

/// `StatusCode::is_success`: within 200-299.
pub open spec fn is_success(code: u16) -> bool {
    200 <= code < 300
}

/// `StatusCode::is_redirection`: within 300-399.
pub open spec fn is_redirection(code: u16) -> bool {
    300 <= code < 400
}

/// A byte that `HeaderValue::to_str` accepts: visible ASCII or a tab.
pub open spec fn is_visible_ascii(b: u8) -> bool {
    (32 <= b < 127) || b == 9
}

/// `HeaderValue::to_str`: the value as text when every byte is visible
/// ASCII, else nothing.
pub open spec fn header_text(v: Seq<u8>) -> Option<Seq<char>> {
    if forall|i: int| 0 <= i < v.len() ==> is_visible_ascii(#[trigger] v[i]) {
        Some(v.map_values(|b: u8| b as char))
    } else {
        None
    }
}

/// `header_text(v).unwrap_or("")`.
pub open spec fn header_text_or_empty(v: Seq<u8>) -> Seq<char> {
    match header_text(v) {
        Some(t) => t,
        None => Seq::empty(),
    }
}

/// The text of a header value, or the empty text when it holds a byte that
/// is not visible ASCII.
pub fn header_text_or_empty_chars(v: &Vec<u8>) -> (r: Vec<char>)
    ensures
        r@ == header_text_or_empty(v@),
{
    let mut r: Vec<char> = Vec::new();
    let mut i: usize = 0;
    while i < v.len()
        invariant
            i <= v.len(),
            r@ == v@.subrange(0, i as int).map_values(|b: u8| b as char),
            forall|k: int| 0 <= k < i ==> is_visible_ascii(#[trigger] v@[k]),
        decreases v.len() - i,
    {
        let b: u8 = v[i];
        if !((32 <= b && b < 127) || b == 9) {
            return Vec::new();
        }
        r.push(b as char);
        assert(v@.subrange(0, i + 1).map_values(|b: u8| b as char) =~= v@.subrange(
            0,
            i as int,
        ).map_values(|b: u8| b as char).push(b as char));
        i = i + 1;
    }
    assert(v@.subrange(0, v.len() as int) =~= v@);
    r
}

} // verus!
