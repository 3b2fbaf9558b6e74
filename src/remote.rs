//! The remote statistic's logic: two counters read out of a fetched HTML page,
//! and their fragment.
use vstd::prelude::*;
use select::predicate::Predicate;
use crate::text::{decimal, decimal_value, is_decimal, parse_decimal, push_char, push_decimal, push_text};

verus! {

/// The two counters that the remote page publishes.
#[derive(Debug, Clone, Copy, PartialEq, Eq, Structural)]
pub struct RemoteStats {
    pub active: u64,
    pub recovered: u64,
}

/// Why the remote statistic could not be had.
#[derive(Debug, Clone, Copy, PartialEq, Eq, Structural)]
pub enum RemoteError {
    /// The request did not complete.
    Transport,
    /// The server answered with a status outside `200..=299`.
    Status(u16),
    /// The page lacks an element that holds a counter.
    MissingField,
    /// A counter's text is not a decimal number.
    Malformed,
    /// The page holds more than `MAX_PAGE_CHARS` characters.
    TooLarge,
}

/// The longest page read, in characters: at four bytes each at most, such a
/// page stays under the 2^32 bytes that the HTML parser accepts.
pub const MAX_PAGE_CHARS: usize = 1073741823;

/// The text of the first element of class `inner` under an element of class
/// `outer`, in a page parsed by select.
pub uninterp spec fn text_under(html: Seq<char>, outer: Seq<char>, inner: Seq<char>) -> Option<Seq<char>>;

/// The text of the first element of class `c` under one of class `b` under one
/// of class `a`, in a page parsed by select.
pub uninterp spec fn text_under2(html: Seq<char>, a: Seq<char>, b: Seq<char>, c: Seq<char>) -> Option<Seq<char>>;

/// Relies on select's `Document::from`, `Document::find` with
/// `Class(outer).descendant(Class(inner))`, and `Node::text`: the text of the
/// first match in document order. The parser takes the page through tendril,
/// which panics on a text of `u32::MAX` bytes or more.
#[verifier::external_body]
fn first_text_under(html: &str, outer: &str, inner: &str) -> (r: Option<String>)
    requires
        html@.len() <= MAX_PAGE_CHARS,
    ensures
        r matches Some(t) ==> text_under(html@, outer@, inner@) == Some(t@),
        r is None ==> text_under(html@, outer@, inner@) is None,
{
    let doc = select::document::Document::from(html);
    let pred = select::predicate::Class(outer).descendant(select::predicate::Class(inner));
    match doc.find(pred).next() {
        Some(n) => Some(n.text()),
        None => None,
    }
}

/// Relies on select's `Document::from`, `Document::find` with
/// `Class(a).descendant(Class(b).descendant(Class(c)))`, and `Node::text`: the
/// text of the first match in document order. The parser takes the page
/// through tendril, which panics on a text of `u32::MAX` bytes or more.
#[verifier::external_body]
fn first_text_under2(html: &str, a: &str, b: &str, c: &str) -> (r: Option<String>)
    requires
        html@.len() <= MAX_PAGE_CHARS,
    ensures
        r matches Some(t) ==> text_under2(html@, a@, b@, c@) == Some(t@),
        r is None ==> text_under2(html@, a@, b@, c@) is None,
{
    let doc = select::document::Document::from(html);
    let inner = select::predicate::Class(b).descendant(select::predicate::Class(c));
    match doc.find(select::predicate::Class(a).descendant(inner)).next() {
        Some(n) => Some(n.text()),
        None => None,
    }
}

/// The count of spaces in `s`.
pub open spec fn spaces(s: Seq<char>) -> nat
    decreases s.len(),
{
    if s.len() == 0 {
        0
    } else {
        spaces(s.drop_last()) + if s.last() == ' ' {
            1nat
        } else {
            0nat
        }
    }
}

/// The `k`-th piece (from zero) of `s` split at every space.
pub open spec fn field(s: Seq<char>, k: nat) -> Seq<char>
    decreases s.len(),
{
    if s.len() == 0 {
        seq![]
    } else if s.last() != ' ' && spaces(s.drop_last()) == k {
        field(s.drop_last(), k).push(s.last())
    } else {
        field(s.drop_last(), k)
    }
}

/// A counter's text: decimal digits whose value fits a `u64`.
pub open spec fn is_count(s: Seq<char>) -> bool {
    is_decimal(s) && decimal_value(s) <= u64::MAX
}

/// The counters read from the texts of the two elements: the active count is
/// the whole first text, the recovered count the third space-separated piece of
/// the second.
pub open spec fn stats_result(active: Option<Seq<char>>, recovered: Option<Seq<char>>) -> Result<RemoteStats, RemoteError> {
    match (active, recovered) {
        (Some(a), Some(r)) => if spaces(r) >= 2 && is_count(a) && is_count(field(r, 2)) {
            Ok(RemoteStats { active: decimal_value(a) as u64, recovered: decimal_value(field(r, 2)) as u64 })
        } else {
            Err(RemoteError::Malformed)
        },
        _ => Err(RemoteError::MissingField),
    }
}

/// The characters of a text that may be absent.
pub open spec fn texts_of(o: Option<String>) -> Option<Seq<char>> {
    match o {
        Some(t) => Some(t@),
        None => None,
    }
}

/// Whether an HTTP status is a success.
pub open spec fn is_success(status: u16) -> bool {
    200 <= status <= 299
}

/// The counters read from a page fetched with a given status.
pub open spec fn page_result(status: u16, html: Seq<char>) -> Result<RemoteStats, RemoteError> {
    if !is_success(status) {
        Err(RemoteError::Status(status))
    } else if html.len() > MAX_PAGE_CHARS {
        Err(RemoteError::TooLarge)
    } else {
        stats_result(
            text_under(html, "active"@, "counter"@),
            text_under2(html, "recovered"@, "new-cases"@, "recovered"@),
        )
    }
}

/// The remote fragment: `A:<active> R:<recovered>|`.
pub open spec fn remote_text(st: RemoteStats) -> Seq<char> {
    seq!['A', ':'] + decimal(st.active as nat) + seq![' ', 'R', ':'] + decimal(st.recovered as nat)
        + seq!['|']
}

/// The `k`-th piece (from zero) of `s` split at every space; `None` when `s`
/// has fewer than `k` spaces.
pub fn nth_field(s: &str, k: usize) -> (r: Option<String>)
    ensures
        r is Some <==> spaces(s@) >= k,
        r matches Some(t) ==> t@ == field(s@, k as nat),
{
    let n = s.unicode_len();
    let mut out = String::new();
    let mut seen: usize = 0;
    let mut i: usize = 0;
    while i < n
        invariant
            n == s@.len(),
            i <= n,
            seen as nat == spaces(s@.take(i as int)),
            seen <= i,
            out@ == field(s@.take(i as int), k as nat),
        decreases n - i,
    {
        let c = s.get_char(i);
        assert(s@.take(i + 1).drop_last() =~= s@.take(i as int));
        if c == ' ' {
            seen = seen + 1;
        } else if seen == k {
            push_char(&mut out, c);
        }
        i = i + 1;
    }
    assert(s@.take(n as int) =~= s@);
    if seen >= k {
        Some(out)
    } else {
        None
    }
}

/// Reads the two counters from the texts of their elements, where the page
/// had them: the active count is the whole first text, the recovered count the
/// third space-separated piece of the second.
pub fn remote_stats(active: Option<String>, recovered: Option<String>) -> (r: Result<RemoteStats, RemoteError>)
    ensures
        r == stats_result(texts_of(active), texts_of(recovered)),
{
    let (a, rec) = match (active, recovered) {
        (Some(a), Some(rec)) => (a, rec),
        _ => return Err(RemoteError::MissingField),
    };
    let piece = match nth_field(rec.as_str(), 2) {
        Some(p) => p,
        None => return Err(RemoteError::Malformed),
    };
    match (parse_decimal(a.as_str()), parse_decimal(piece.as_str())) {
        (Some(x), Some(y)) => Ok(RemoteStats { active: x, recovered: y }),
        _ => Err(RemoteError::Malformed),
    }
}

/// Reads the two counters from a page that the server answered with `status`:
/// a status outside `200..=299` is an error of its own, and so is a page of
/// more than `MAX_PAGE_CHARS` characters.
pub fn parse_remote_page(status: u16, html: &str) -> (r: Result<RemoteStats, RemoteError>)
    ensures
        r == page_result(status, html@),
{
    if status < 200 || status > 299 {
        return Err(RemoteError::Status(status));
    }
    if html.unicode_len() > MAX_PAGE_CHARS {
        return Err(RemoteError::TooLarge);
    }
    let active = first_text_under(html, "active", "counter");
    let recovered = first_text_under2(html, "recovered", "new-cases", "recovered");
    let r = remote_stats(active, recovered);
    assert(texts_of(active) == text_under(html@, "active"@, "counter"@));
    assert(texts_of(recovered) == text_under2(html@, "recovered"@, "new-cases"@, "recovered"@));
    r
}

/// The fragment for the remote counters: `A:<active> R:<recovered>|`.
pub fn remote_fragment(st: &RemoteStats) -> (r: String)
    ensures
        r@ == remote_text(*st),
{
    let mut s = String::new();
    push_text(&mut s, "A:");
    push_decimal(&mut s, st.active);
    push_text(&mut s, " R:");
    push_decimal(&mut s, st.recovered);
    push_char(&mut s, '|');
    proof {
        reveal_strlit("A:");
        reveal_strlit(" R:");
    }
    assert(s@ =~= remote_text(*st));
    s
}

} // verus!
