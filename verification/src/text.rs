//! Character-level text operations used by every audit: substring search,
//! trimming, line splitting, joining, replacement and decimal rendering,
//! each stated over `Seq<char>` and implemented with a proof.
use vstd::prelude::*;
use vstd::std_specs::iter::IteratorSpec;
use vstd::string::*;

verus! {

broadcast use vstd::string::group_string_axioms;

// ---------------------------------------------------------------------------
// Specifications
// ---------------------------------------------------------------------------

/// `p` occurs in `s` at some position.
pub open spec fn has_infix(s: Seq<char>, p: Seq<char>) -> bool {
    exists|i: int| 0 <= i <= s.len() - p.len() && #[trigger] s.subrange(i, i + p.len()) == p
}

/// `s` begins with `p`.
pub open spec fn has_prefix(s: Seq<char>, p: Seq<char>) -> bool {
    p.len() <= s.len() && s.subrange(0, p.len() as int) == p
}

/// The Unicode `White_Space` property (PropList.txt), which is what
/// `char::is_whitespace` and `str::trim` go by.
pub open spec fn is_white_space(c: char) -> bool {
    let u: u32 = c as u32;
    ||| 9 <= u <= 13
    ||| u == 32
    ||| u == 0x85
    ||| u == 0xA0
    ||| u == 0x1680
    ||| 0x2000 <= u <= 0x200A
    ||| u == 0x2028
    ||| u == 0x2029
    ||| u == 0x202F
    ||| u == 0x205F
    ||| u == 0x3000
}

/// Which characters a strip operation removes.
#[derive(Clone, Copy)]
pub enum Strip {
    Whitespace,
    Char(char),
}

pub open spec fn strips(k: Strip, c: char) -> bool {
    match k {
        Strip::Whitespace => is_white_space(c),
        Strip::Char(x) => c == x,
    }
}

/// `s` with every leading character that `k` strips removed.
pub open spec fn strip_start(s: Seq<char>, k: Strip) -> Seq<char>
    decreases s.len(),
{
    if s.len() > 0 && strips(k, s[0]) {
        strip_start(s.drop_first(), k)
    } else {
        s
    }
}

/// `s` with every trailing character that `k` strips removed.
pub open spec fn strip_end(s: Seq<char>, k: Strip) -> Seq<char>
    decreases s.len(),
{
    if s.len() > 0 && strips(k, s.last()) {
        strip_end(s.drop_last(), k)
    } else {
        s
    }
}

/// Both ends stripped: `str::trim_matches` for a single character, and
/// `str::trim` for white space.
pub open spec fn strip_both(s: Seq<char>, k: Strip) -> Seq<char> {
    strip_end(strip_start(s, k), k)
}

/// `str::trim`.
pub open spec fn trim(s: Seq<char>) -> Seq<char> {
    strip_both(s, Strip::Whitespace)
}

/// `t` without one final carriage return.
pub open spec fn strip_cr(t: Seq<char>) -> Seq<char> {
    if t.len() > 0 && t.last() == '\r' {
        t.drop_last()
    } else {
        t
    }
}

/// Index of the first `'\n'` in `s`, or `s.len()` when there is none.
pub open spec fn first_newline(s: Seq<char>) -> nat
    decreases s.len(),
{
    if s.len() == 0 {
        0
    } else if s[0] == '\n' {
        0
    } else {
        1 + first_newline(s.drop_first())
    }
}

/// The lines of `s` as `str::lines` yields them: split after each `'\n'`,
/// with the `'\n'` and a `'\r'` just before it removed; a final line needs
/// no terminator, and nothing follows a final terminator.
pub open spec fn lines(s: Seq<char>) -> Seq<Seq<char>>
    decreases s.len(),
{
    if s.len() == 0 {
        Seq::empty()
    } else {
        let k: int = first_newline(s) as int;
        if k < s.len() {
            seq![strip_cr(s.subrange(0, k))] + lines(s.subrange(k + 1, s.len() as int))
        } else {
            seq![s]
        }
    }
}

/// The pieces of `parts` with `sep` between neighbours (`[String]::join`).
pub open spec fn join(parts: Seq<Seq<char>>, sep: Seq<char>) -> Seq<char>
    decreases parts.len(),
{
    if parts.len() == 0 {
        Seq::empty()
    } else if parts.len() == 1 {
        parts[0]
    } else {
        join(parts.drop_last(), sep) + sep + parts.last()
    }
}

/// `str::replace`: every leftmost, non-overlapping occurrence of `from`
/// replaced by `to`.
pub open spec fn replace_all(s: Seq<char>, from: Seq<char>, to: Seq<char>) -> Seq<char>
    recommends
        from.len() > 0,
    decreases s.len(),
{
    if from.len() == 0 || s.len() < from.len() {
        s
    } else if s.subrange(0, from.len() as int) == from {
        to + replace_all(s.subrange(from.len() as int, s.len() as int), from, to)
    } else {
        seq![s[0]] + replace_all(s.drop_first(), from, to)
    }
}

pub open spec fn digit_char(d: nat) -> char {
    if d == 0 {
        '0'
    } else if d == 1 {
        '1'
    } else if d == 2 {
        '2'
    } else if d == 3 {
        '3'
    } else if d == 4 {
        '4'
    } else if d == 5 {
        '5'
    } else if d == 6 {
        '6'
    } else if d == 7 {
        '7'
    } else if d == 8 {
        '8'
    } else {
        '9'
    }
}

/// The decimal numeral of `n`, without leading zeros (as `Display` writes it).
pub open spec fn decimal(n: nat) -> Seq<char>
    decreases n,
{
    if n < 10 {
        seq![digit_char(n)]
    } else {
        decimal(n / 10).push(digit_char(n % 10))
    }
}

// ---------------------------------------------------------------------------
// Calls into std that vstd does not specify
// ---------------------------------------------------------------------------

/// What `str::to_lowercase` returns: the lowercase mapping of the Unicode
/// standard applied to the whole text.
pub uninterp spec fn lowercase(s: Seq<char>) -> Seq<char>;

/// ASCII's lowercase of one character: `A`-`Z` become `a`-`z`.
pub open spec fn ascii_lower(c: char) -> char {
    if 65 <= (c as u32) <= 90 {
        ((c as u32) + 32) as char
    } else {
        c
    }
}

pub open spec fn is_ascii_text(s: Seq<char>) -> bool {
    forall|i: int| 0 <= i < s.len() ==> (#[trigger] s[i] as u32) < 128
}

/// Calls `str::to_lowercase`. The mapping is Unicode's (some characters
/// become several, and a final sigma depends on its neighbours), so the
/// contract names the result, and says only that ASCII text is lowercased
/// letter by letter, `A`-`Z` to `a`-`z`.
#[verifier::external_body]
pub(crate) fn to_lowercase(s: &str) -> (r: String)
    ensures
        r@ == lowercase(s@),
        is_ascii_text(s@) ==> r@ == s@.map_values(|c: char| ascii_lower(c)),
{
    s.to_lowercase()
}

/// Calls `String::push`, which appends one character.
#[verifier::external_body]
fn push_char(s: &mut String, c: char)
    ensures
        final(s)@ == old(s)@.push(c),
{
    s.push(c)
}

// ---------------------------------------------------------------------------
// Executable operations
// ---------------------------------------------------------------------------

/// The characters of a string slice, in order.
pub fn chars_of(s: &str) -> (v: Vec<char>)
    ensures
        v@ == s@,
{
    let mut v: Vec<char> = Vec::new();
    for c in it: s.chars()
        invariant
            v@ == it.seq().take(it.index()),
            it.seq() == s@,
    {
        v.push(c);
    }
    v
}

/// A `String` holding `v[lo..hi]`.
pub fn string_of(v: &Vec<char>, lo: usize, hi: usize) -> (r: String)
    requires
        lo <= hi <= v.len(),
    ensures
        r@ == v@.subrange(lo as int, hi as int),
{
    let mut r = String::new();
    let mut i = lo;
    while i < hi
        invariant
            lo <= i <= hi <= v.len(),
            r@ == v@.subrange(lo as int, i as int),
        decreases hi - i,
    {
        push_char(&mut r, v[i]);
        assert(v@.subrange(lo as int, i + 1) =~= v@.subrange(lo as int, i as int).push(v@[i as int]));
        i = i + 1;
    }
    r
}

/// Whether `p` occurs in `s` starting at `i`.
pub fn occurs_at(s: &Vec<char>, p: &Vec<char>, i: usize) -> (r: bool)
    ensures
        r == (i + p.len() <= s.len() && s@.subrange(i as int, i + p.len()) == p@),
{
    if i > s.len() || p.len() > s.len() - i {
        return false;
    }
    let mut j: usize = 0;
    while j < p.len()
        invariant
            i + p.len() <= s.len(),
            j <= p.len(),
            forall|k: int| 0 <= k < j ==> s@[i + k] == p@[k],
        decreases p.len() - j,
    {
        if s[i + j] != p[j] {
            assert(s@.subrange(i as int, i + p.len())[j as int] != p@[j as int]);
            return false;
        }
        j = j + 1;
    }
    assert(s@.subrange(i as int, i + p.len()) =~= p@);
    true
}

/// Whether `p` occurs anywhere in `s`.
pub fn contains_chars(s: &Vec<char>, p: &Vec<char>) -> (r: bool)
    ensures
        r == has_infix(s@, p@),
{
    if p.len() > s.len() {
        return false;
    }
    let last: usize = s.len() - p.len();
    let mut i: usize = 0;
    loop
        invariant
            last == s.len() - p.len(),
            i <= last,
            forall|k: int| 0 <= k < i ==> #[trigger] s@.subrange(k, k + p.len()) != p@,
        decreases last - i,
    {
        if occurs_at(s, p, i) {
            return true;
        }
        if i == last {
            return false;
        }
        i = i + 1;
    }
}

/// `str::contains` for a string pattern.
pub fn contains_str(s: &str, p: &str) -> (r: bool)
    ensures
        r == has_infix(s@, p@),
{
    let sv = chars_of(s);
    let pv = chars_of(p);
    contains_chars(&sv, &pv)
}

/// `a == b` for string slices.
pub fn equals_str(a: &str, b: &str) -> (r: bool)
    ensures
        r == (a@ == b@),
{
    let av = chars_of(a);
    let bv = chars_of(b);
    if av.len() != bv.len() {
        return false;
    }
    let r = occurs_at(&av, &bv, 0);
    assert(av@.subrange(0, bv@.len() as int) =~= av@);
    r
}

/// `str::starts_with` for a string pattern.
pub fn starts_with_str(s: &str, p: &str) -> (r: bool)
    ensures
        r == has_prefix(s@, p@),
{
    let sv = chars_of(s);
    let pv = chars_of(p);
    occurs_at(&sv, &pv, 0)
}

/// `char::is_whitespace`.
pub fn is_white_space_char(c: char) -> (r: bool)
    ensures
        r == is_white_space(c),
{
    let u: u32 = c as u32;
    (9 <= u && u <= 13) || u == 32 || u == 0x85 || u == 0xA0 || u == 0x1680 || (0x2000 <= u && u
        <= 0x200A) || u == 0x2028 || u == 0x2029 || u == 0x202F || u == 0x205F || u == 0x3000
}

fn strips_char(k: Strip, c: char) -> (r: bool)
    ensures
        r == strips(k, c),
{
    match k {
        Strip::Whitespace => is_white_space_char(c),
        Strip::Char(x) => c == x,
    }
}

/// Index of the first character of `v[lo..]` that `k` does not strip.
fn strip_start_index(v: &Vec<char>, lo: usize, k: Strip) -> (i: usize)
    requires
        lo <= v.len(),
    ensures
        lo <= i <= v.len(),
        strip_start(v@.subrange(lo as int, v.len() as int), k) == v@.subrange(
            i as int,
            v.len() as int,
        ),
{
    let mut i = lo;
    while i < v.len() && strips_char(k, v[i])
        invariant
            lo <= i <= v.len(),
            strip_start(v@.subrange(lo as int, v.len() as int), k) == strip_start(
                v@.subrange(i as int, v.len() as int),
                k,
            ),
        decreases v.len() - i,
    {
        assert(v@.subrange(i as int, v.len() as int).drop_first() =~= v@.subrange(
            i + 1,
            v.len() as int,
        ));
        i = i + 1;
    }
    i
}

/// End of `v[lo..hi]` once the trailing characters that `k` strips are gone.
fn strip_end_index(v: &Vec<char>, lo: usize, hi: usize, k: Strip) -> (j: usize)
    requires
        lo <= hi <= v.len(),
    ensures
        lo <= j <= hi,
        strip_end(v@.subrange(lo as int, hi as int), k) == v@.subrange(lo as int, j as int),
{
    let mut j = hi;
    while j > lo && strips_char(k, v[j - 1])
        invariant
            lo <= j <= hi <= v.len(),
            strip_end(v@.subrange(lo as int, hi as int), k) == strip_end(
                v@.subrange(lo as int, j as int),
                k,
            ),
        decreases j - lo,
    {
        assert(v@.subrange(lo as int, j as int).drop_last() =~= v@.subrange(lo as int, j - 1));
        j = j - 1;
    }
    j
}

/// Bounds of `strip_both(v[lo..hi], k)` inside `v`.
pub fn strip_bounds(v: &Vec<char>, k: Strip) -> (r: (usize, usize))
    ensures
        r.0 <= r.1 <= v.len(),
        strip_both(v@, k) == v@.subrange(r.0 as int, r.1 as int),
{
    let i: usize = strip_start_index(v, 0, k);
    let j: usize = strip_end_index(v, i, v.len(), k);
    assert(v@.subrange(0, v.len() as int) =~= v@);
    (i, j)
}

/// `str::trim`.
pub fn trim_str(s: &str) -> (r: String)
    ensures
        r@ == trim(s@),
{
    let v = chars_of(s);
    let (i, j) = strip_bounds(&v, Strip::Whitespace);
    string_of(&v, i, j)
}

/// `str::trim_matches` with a single character.
pub fn trim_matches_char(s: &str, c: char) -> (r: String)
    ensures
        r@ == strip_both(s@, Strip::Char(c)),
{
    let v = chars_of(s);
    let (i, j) = strip_bounds(&v, Strip::Char(c));
    string_of(&v, i, j)
}

/// `str::trim_end_matches` with a single character.
pub fn trim_end_matches_char(s: &str, c: char) -> (r: String)
    ensures
        r@ == strip_end(s@, Strip::Char(c)),
{
    let v = chars_of(s);
    let j: usize = strip_end_index(&v, 0, v.len(), Strip::Char(c));
    assert(v@.subrange(0, v.len() as int) =~= v@);
    string_of(&v, 0, j)
}

fn digit_of(d: u64) -> (c: char)
    requires
        d < 10,
    ensures
        c == digit_char(d as nat),
{
    if d == 0 {
        '0'
    } else if d == 1 {
        '1'
    } else if d == 2 {
        '2'
    } else if d == 3 {
        '3'
    } else if d == 4 {
        '4'
    } else if d == 5 {
        '5'
    } else if d == 6 {
        '6'
    } else if d == 7 {
        '7'
    } else if d == 8 {
        '8'
    } else {
        '9'
    }
}

/// Appends the decimal numeral of `n` to `out`.
pub fn push_decimal(out: &mut String, n: u64)
    ensures
        final(out)@ == old(out)@ + decimal(n as nat),
    decreases n,
{
    if n >= 10 {
        push_decimal(out, n / 10);
    }
    push_char(out, digit_of(n % 10));
    assert(old(out)@ + decimal(n as nat) =~= old(out)@ + (if n >= 10 {
        decimal((n / 10) as nat)
    } else {
        Seq::empty()
    }).push(digit_char((n % 10) as nat)));
}

/// Appends a string slice.
pub fn push_str(out: &mut String, s: &str)
    ensures
        final(out)@ == old(out)@ + s@,
{
    out.append(s);
}

/// `parts.join(sep)`.
pub fn join_strings(parts: &Vec<String>, sep: &str) -> (r: String)
    ensures
        r@ == join(parts@.map_values(|p: String| p@), sep@),
{
    let ghost views = parts@.map_values(|p: String| p@);
    let mut r = String::new();
    let mut i: usize = 0;
    while i < parts.len()
        invariant
            i <= parts.len(),
            views == parts@.map_values(|p: String| p@),
            r@ == join(views.take(i as int), sep@),
        decreases parts.len() - i,
    {
        assert(views.take(i + 1).drop_last() =~= views.take(i as int));
        if i > 0 {
            r.append(sep);
        } else {
            assert(r@ =~= Seq::<char>::empty());
        }
        r.append(parts[i].as_str());
        assert(views.take(i + 1).last() == parts@[i as int]@);
        i = i + 1;
        assert(r@ =~= join(views.take(i as int), sep@));
    }
    assert(views.take(parts.len() as int) =~= views);
    r
}

proof fn lemma_first_newline(s: Seq<char>)
    ensures
        0 <= first_newline(s) <= s.len(),
        forall|i: int| 0 <= i < first_newline(s) ==> s[i] != '\n',
        first_newline(s) < s.len() ==> s[first_newline(s) as int] == '\n',
    decreases s.len(),
{
    if s.len() > 0 && s[0] != '\n' {
        lemma_first_newline(s.drop_first());
        assert forall|i: int| 0 <= i < first_newline(s) implies s[i] != '\n' by {
            if i > 0 {
                assert(s[i] == s.drop_first()[i - 1]);
            }
        }
    }
}

proof fn lemma_first_newline_at(s: Seq<char>, k: int)
    requires
        0 <= k <= s.len(),
        forall|i: int| 0 <= i < k ==> s[i] != '\n',
        k < s.len() ==> s[k] == '\n',
    ensures
        first_newline(s) == k,
{
    lemma_first_newline(s);
    if first_newline(s) < k {
        assert(s[first_newline(s) as int] == '\n');
    }
    if first_newline(s) > k {
        assert(s[k] != '\n');
    }
}

/// The lines of `s`, as `str::lines` yields them.
pub fn split_lines(s: &str) -> (r: Vec<String>)
    ensures
        r@.map_values(|l: String| l@) == lines(s@),
{
    let v = chars_of(s);
    let n: usize = v.len();
    let mut out: Vec<String> = Vec::new();
    let mut start: usize = 0;
    let mut i: usize = 0;
    assert(v@.subrange(0, n as int) =~= v@);
    assert(out@.map_values(|l: String| l@) =~= Seq::<Seq<char>>::empty());
    while i < n
        invariant
            n == v.len(),
            v@ == s@,
            start <= i <= n,
            forall|k: int| start <= k < i ==> v@[k] != '\n',
            out@.map_values(|l: String| l@) + lines(v@.subrange(start as int, n as int)) == lines(
                s@,
            ),
        decreases n - i,
    {
        if v[i] == '\n' {
            let ghost rest = v@.subrange(start as int, n as int);
            proof {
                lemma_first_newline_at(rest, i - start);
                assert(rest.subrange(0, i - start) =~= v@.subrange(start as int, i as int));
                assert(rest.subrange(i - start + 1, rest.len() as int) =~= v@.subrange(
                    i + 1,
                    n as int,
                ));
            }
            let mut end = i;
            if end > start && v[end - 1] == '\r' {
                end = end - 1;
            }
            let line = string_of(&v, start, end);
            proof {
                assert(line@ == strip_cr(v@.subrange(start as int, i as int))) by {
                    if i > start && v@[i - 1] == '\r' {
                        assert(v@.subrange(start as int, i as int).drop_last() =~= v@.subrange(
                            start as int,
                            i - 1,
                        ));
                    }
                }
            }
            let ghost before = out@.map_values(|l: String| l@);
            out.push(line);
            assert(out@.map_values(|l: String| l@) =~= before.push(line@));
            assert(before.push(line@) + lines(v@.subrange(i + 1, n as int)) =~= before + (seq![
                line@,
            ] + lines(v@.subrange(i + 1, n as int))));
            start = i + 1;
        }
        i = i + 1;
    }
    if start < n {
        let ghost rest = v@.subrange(start as int, n as int);
        proof {
            lemma_first_newline_at(rest, rest.len() as int);
        }
        let line = string_of(&v, start, n);
        let ghost before = out@.map_values(|l: String| l@);
        out.push(line);
        assert(out@.map_values(|l: String| l@) =~= before.push(line@));
        assert(before + seq![line@] =~= before.push(line@));
    } else {
        assert(out@.map_values(|l: String| l@) =~= out@.map_values(|l: String| l@) + lines(
            v@.subrange(start as int, n as int),
        ));
    }
    out
}

/// `s.replace(from, to)` for a non-empty pattern.
pub fn replace_str(s: &str, from: &str, to: &str) -> (r: String)
    requires
        from@.len() > 0,
    ensures
        r@ == replace_all(s@, from@, to@),
{
    let v = chars_of(s);
    let f = chars_of(from);
    let n: usize = v.len();
    let mut r = String::new();
    let mut i: usize = 0;
    assert(v@.subrange(0, n as int) =~= v@);
    assert(r@ + replace_all(v@.subrange(0, n as int), f@, to@) =~= replace_all(s@, f@, to@));
    while i < n
        invariant
            n == v.len(),
            v@ == s@,
            f@ == from@,
            f@.len() > 0,
            i <= n,
            r@ + replace_all(v@.subrange(i as int, n as int), f@, to@) == replace_all(
                s@,
                f@,
                to@,
            ),
        decreases n - i,
    {
        let ghost rest = v@.subrange(i as int, n as int);
        if occurs_at(&v, &f, i) {
            proof {
                assert(rest.subrange(0, f@.len() as int) =~= v@.subrange(i as int, i + f@.len()));
                assert(rest.subrange(f@.len() as int, rest.len() as int) =~= v@.subrange(
                    i + f@.len(),
                    n as int,
                ));
            }
            let ghost before = r@;
            r.append(to);
            assert(before + (to@ + replace_all(v@.subrange(i + f@.len(), n as int), f@, to@))
                =~= r@ + replace_all(v@.subrange(i + f@.len(), n as int), f@, to@));
            i = i + f.len();
        } else {
            proof {
                if rest.len() >= f@.len() {
                    assert(rest.subrange(0, f@.len() as int) =~= v@.subrange(
                        i as int,
                        i + f@.len(),
                    ));
                }
                assert(rest.drop_first() =~= v@.subrange(i + 1, n as int));
            }
            let ghost before = r@;
            push_char(&mut r, v[i]);
            proof {
                if rest.len() < f@.len() {
                    // No match can start this close to the end: the rest is kept as it is.
                    assert(replace_all(rest, f@, to@) == rest);
                    assert(replace_all(rest.drop_first(), f@, to@) == rest.drop_first());
                    assert(rest =~= seq![rest[0]] + rest.drop_first());
                }
                assert(before + (seq![v@[i as int]] + replace_all(rest.drop_first(), f@, to@))
                    =~= r@ + replace_all(rest.drop_first(), f@, to@));
            }
            i = i + 1;
        }
    }
    assert(v@.subrange(n as int, n as int) =~= Seq::<char>::empty());
    assert(r@ + Seq::<char>::empty() =~= r@);
    r
}

} // verus!
