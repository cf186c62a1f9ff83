//! JSON decode failures and the extraction of structured error names from
//! decoder messages.
//!
//! Domain deserializers embed their own error names in the message they
//! hand the decoder, between double-hash markers: `##Name## ...` or
//! `##Name(detail)## ...`.  `extract_error_name` recovers the name and the
//! optional detail from such a message; its behaviour is pinned down, for
//! every input, by the specification functions in this module.

use vstd::prelude::*;
use vstd::string::StrSliceExecFns;

verus! {

/// A failed JSON parse: either a structured domain error extracted from
/// the decoder message, or the raw message of a malformed document.
pub enum JsonError {
    /// A domain error the deserializer embedded in its message.
    Custom { err_name: String, err_msg: Option<String> },
    /// The document was not valid JSON (or held no embedded error name):
    /// the underlying decoder message.
    InvalidJson(String),
}

/// Whitespace for the purposes of trimming error names and details.
pub open spec fn is_wspace(c: char) -> bool {
    c == ' ' || c == '\t' || c == '\n' || c == '\r'
}

/// Index of the first double-hash marker at or after `i`, if any.
pub open spec fn find_marker(s: Seq<char>, i: int) -> Option<int>
    decreases s.len() - i when 0 <= i <= s.len()
{
    if i + 1 >= s.len() {
        None
    } else if s[i] == '#' && s[i + 1] == '#' {
        Some(i)
    } else {
        find_marker(s, i + 1)
    }
}

/// Index of the first occurrence of `c` in `[i, end)`, if any.
pub open spec fn find_char(s: Seq<char>, c: char, i: int, end: int) -> Option<int>
    decreases end - i when i <= end
{
    if i >= end {
        None
    } else if s[i] == c {
        Some(i)
    } else {
        find_char(s, c, i + 1, end)
    }
}

/// Index of the first non-whitespace character in `[i, end)`, or `end`.
pub open spec fn first_non_ws(s: Seq<char>, i: int, end: int) -> int
    decreases end - i when i <= end
{
    if i >= end {
        end
    } else if is_wspace(s[i]) {
        first_non_ws(s, i + 1, end)
    } else {
        i
    }
}

/// One past the last non-whitespace character in `[i, end)`, or `i` if
/// the range is all whitespace.
pub open spec fn last_non_ws(s: Seq<char>, i: int, end: int) -> int
    decreases end - i when i <= end
{
    if end <= i {
        i
    } else if is_wspace(s[end - 1]) {
        last_non_ws(s, i, end - 1)
    } else {
        end
    }
}

/// The range `[i, end)` of `s` with leading and trailing whitespace
/// removed.
pub open spec fn trim_range(s: Seq<char>, i: int, end: int) -> Seq<char>
    recommends
        0 <= i <= end <= s.len(),
{
    let a = first_non_ws(s, i, end);
    let b = last_non_ws(s, a, end);
    s.subrange(a, b)
}

/// `s` with every trailing closing parenthesis removed.
pub open spec fn strip_trailing_parens(s: Seq<char>) -> Seq<char>
    decreases s.len(),
{
    if s.len() > 0 && s.last() == ')' {
        strip_trailing_parens(s.drop_last())
    } else {
        s
    }
}

/// What `extract_error_name` returns on a message `s`: the trimmed text
/// between the first two double-hash markers, split at its first opening
/// parenthesis into the error name and an optional detail, the detail
/// running to the next opening parenthesis (or the second marker) and
/// shedding trailing closing parentheses.  `None` when the markers are
/// missing or nothing follows the first one.
pub open spec fn extract_spec(s: Seq<char>) -> Option<(Seq<char>, Option<Seq<char>>)> {
    match find_marker(s, 0) {
        None => None,
        Some(m1) => {
            let start = m1 + 2;
            if start >= s.len() {
                None
            } else {
                match find_marker(s, start) {
                    None => None,
                    Some(m2) => match find_char(s, '(', start, m2) {
                        None => Some((trim_range(s, start, m2), None)),
                        Some(k) => {
                            let k2 = match find_char(s, '(', k + 1, m2) {
                                Some(x) => x,
                                None => m2,
                            };
                            Some(
                                (
                                    trim_range(s, start, k),
                                    Some(strip_trailing_parens(trim_range(s, k + 1, k2))),
                                ),
                            )
                        },
                    },
                }
            }
        },
    }
}

/// Finds the first double-hash marker at or after `from`.
fn find_marker_from(s: &str, from: usize) -> (r: Option<usize>)
    requires
        from <= s@.len(),
    ensures
        match r {
            Some(i) => find_marker(s@, from as int) == Some(i as int) && from <= i && i + 1
                < s@.len(),
            None => find_marker(s@, from as int) is None,
        },
{
    let n = s.unicode_len();
    let mut i = from;
    while i < n && i + 1 < n
        invariant
            from <= i <= n,
            n == s@.len(),
            find_marker(s@, from as int) == find_marker(s@, i as int),
        decreases n - i,
    {
        if s.get_char(i) == '#' && s.get_char(i + 1) == '#' {
            return Some(i);
        }
        i = i + 1;
    }
    None
}

/// Finds the first occurrence of `c` in `[from, end)`.
fn find_char_from(s: &str, c: char, from: usize, end: usize) -> (r: Option<usize>)
    requires
        from <= end <= s@.len(),
    ensures
        match r {
            Some(i) => find_char(s@, c, from as int, end as int) == Some(i as int) && from <= i
                && i < end,
            None => find_char(s@, c, from as int, end as int) is None,
        },
{
    let mut i = from;
    while i < end
        invariant
            from <= i <= end <= s@.len(),
            find_char(s@, c, from as int, end as int) == find_char(s@, c, i as int, end as int),
        decreases end - i,
    {
        if s.get_char(i) == c {
            return Some(i);
        }
        i = i + 1;
    }
    None
}

/// Whether `c` is trim whitespace.
fn is_wspace_exec(c: char) -> (r: bool)
    ensures
        r == is_wspace(c),
{
    c == ' ' || c == '\t' || c == '\n' || c == '\r'
}

/// Bounds of the range `[from, end)` with surrounding whitespace shed:
/// the subrange they delimit is the trimmed text.
fn trim_bounds(s: &str, from: usize, end: usize) -> (r: (usize, usize))
    requires
        from <= end <= s@.len(),
    ensures
        from <= r.0 <= r.1 <= end,
        r.0 as int == first_non_ws(s@, from as int, end as int),
        r.1 as int == last_non_ws(s@, r.0 as int, end as int),
        s@.subrange(r.0 as int, r.1 as int) == trim_range(s@, from as int, end as int),
{
    let mut a = from;
    while a < end && is_wspace_exec(s.get_char(a))
        invariant
            from <= a <= end <= s@.len(),
            first_non_ws(s@, from as int, end as int) == first_non_ws(s@, a as int, end as int),
        decreases end - a,
    {
        a = a + 1;
    }
    let mut b = end;
    while b > a && is_wspace_exec(s.get_char(b - 1))
        invariant
            a <= b <= end <= s@.len(),
            last_non_ws(s@, a as int, end as int) == last_non_ws(s@, a as int, b as int),
        decreases b,
    {
        b = b - 1;
    }
    (a, b)
}

/// Extracts the embedded error name, and its optional parenthesised
/// detail, from a decoder message: the trimmed text between the first two
/// double-hash markers, split at its first opening parenthesis, the
/// detail shedding trailing closing parentheses.  Returns nothing when
/// the markers are absent or nothing follows the first one.
pub fn extract_error_name(s: &str) -> (r: Option<(String, Option<String>)>)
    ensures
        r is Some <==> extract_spec(s@) is Some,
        r is Some ==> r.unwrap().0@ == extract_spec(s@).unwrap().0,
        r is Some ==> (r.unwrap().1 is Some <==> extract_spec(s@).unwrap().1 is Some),
        r is Some && r.unwrap().1 is Some ==> r.unwrap().1.unwrap()@ == extract_spec(
            s@,
        ).unwrap().1.unwrap(),
{
    let n = s.unicode_len();
    let m1 = match find_marker_from(s, 0) {
        Some(i) => i,
        None => {
            return None;
        },
    };
    let start = m1 + 2;
    if start >= n {
        return None;
    }
    let m2 = match find_marker_from(s, start) {
        Some(i) => i,
        None => {
            return None;
        },
    };
    match find_char_from(s, '(', start, m2) {
        None => {
            let (a, b) = trim_bounds(s, start, m2);
            let name = s.substring_char(a, b).to_owned();
            Some((name, None))
        },
        Some(k) => {
            let (a, b) = trim_bounds(s, start, k);
            let name = s.substring_char(a, b).to_owned();
            let k2 = match find_char_from(s, '(', k + 1, m2) {
                Some(x) => x,
                None => m2,
            };
            let (a2, b2) = trim_bounds(s, k + 1, k2);
            let mut c = b2;
            while c > a2 && s.get_char(c - 1) == ')'
                invariant
                    a2 <= c <= b2 <= s@.len(),
                    strip_trailing_parens(s@.subrange(a2 as int, b2 as int))
                        == strip_trailing_parens(s@.subrange(a2 as int, c as int)),
                decreases c,
            {
                proof {
                    assert(s@.subrange(a2 as int, c as int).drop_last() =~= s@.subrange(
                        a2 as int,
                        c as int - 1,
                    ));
                }
                c = c - 1;
            }
            proof {
                assert(strip_trailing_parens(s@.subrange(a2 as int, c as int)) == s@.subrange(
                    a2 as int,
                    c as int,
                ));
            }
            let msg = s.substring_char(a2, c).to_owned();
            Some((name, Some(msg)))
        },
    }
}

/// Sorts a failed JSON parse into the error contract: a message carrying
/// an embedded error name (in a document that was well-formed JSON but
/// invalid data) becomes a structured domain error; anything else keeps
/// the raw message.
pub fn json_failure(is_data: bool, msg: &str) -> (e: JsonError)
    ensures
        is_data && extract_spec(msg@) is Some ==> (e matches JsonError::Custom {
            err_name,
            err_msg,
        } && err_name@ == extract_spec(msg@).unwrap().0 && (err_msg is Some <==> extract_spec(
            msg@,
        ).unwrap().1 is Some) && (err_msg is Some ==> err_msg.unwrap()@ == extract_spec(
            msg@,
        ).unwrap().1.unwrap())),
        !(is_data && extract_spec(msg@) is Some) ==> (e matches JsonError::InvalidJson(m)
            && m@ == msg@),
{
    if is_data {
        match extract_error_name(msg) {
            Some((err_name, err_msg)) => JsonError::Custom { err_name, err_msg },
            None => JsonError::InvalidJson(msg.to_owned()),
        }
    } else {
        JsonError::InvalidJson(msg.to_owned())
    }
}

/// Parser of JSON request bodies.  The byte-level deserialization is the
/// serialization layer's work; this core owns the error contract above.
pub struct SerdeJsonParser;

impl SerdeJsonParser {
    pub fn new() -> Self {
        SerdeJsonParser
    }
}

} // verus!
