//! Character-level helpers on strings: blank detection (the `White_Space`
//! property that `str::trim` strips), optional-string normalisation and
//! character-budget truncation.

use vstd::prelude::*;

verus! {

/// The Unicode `White_Space` property, which `char::is_whitespace` and
/// therefore `str::trim` are defined by.
pub open spec fn is_white_space(c: char) -> bool {
    let u = c as u32;
    ||| 0x09 <= u <= 0x0d
    ||| u == 0x20
    ||| u == 0x85
    ||| u == 0xa0
    ||| u == 0x1680
    ||| 0x2000 <= u <= 0x200a
    ||| u == 0x2028
    ||| u == 0x2029
    ||| u == 0x202f
    ||| u == 0x205f
    ||| u == 0x3000
}

/// A string is blank when trimming it leaves nothing: every character is
/// white space (the empty string included).
pub open spec fn is_blank_spec(s: Seq<char>) -> bool {
    forall|i: int| 0 <= i < s.len() ==> #[trigger] is_white_space(s[i])
}

/// Whether `c` has the `White_Space` property.
pub fn char_is_white_space(c: char) -> (b: bool)
    ensures
        b == is_white_space(c),
{
    let u = c as u32;
    (0x09 <= u && u <= 0x0d) || u == 0x20 || u == 0x85 || u == 0xa0 || u == 0x1680 || (0x2000
        <= u && u <= 0x200a) || u == 0x2028 || u == 0x2029 || u == 0x202f || u == 0x205f || u
        == 0x3000
}

/// Whether `s` is empty once surrounding white space is trimmed.
pub fn is_blank(s: &str) -> (b: bool)
    ensures
        b == is_blank_spec(s@),
{
    let len = s.unicode_len();
    for i in 0..len
        invariant
            len == s@.len(),
            forall|j: int| 0 <= j < i ==> #[trigger] is_white_space(s@[j]),
    {
        if !char_is_white_space(s.get_char(i)) {
            return false;
        }
    }
    true
}

/// What an optional configuration string becomes once read: absent stays
/// absent, a blank string counts as absent, anything else is kept as is.
pub open spec fn non_blank_spec(value: Option<Seq<char>>) -> Option<Seq<char>> {
    match value {
        Some(s) => if is_blank_spec(s) { None } else { Some(s) },
        None => None,
    }
}

/// The view of an optional string.
pub open spec fn opt_view(value: Option<String>) -> Option<Seq<char>> {
    match value {
        Some(s) => Some(s@),
        None => None,
    }
}

/// A copy of an optional string, equal to it.
pub fn copy_opt_string(s: &Option<String>) -> (res: Option<String>)
    ensures
        res == *s,
{
    match s {
        Some(x) => Some(x.clone()),
        None => None,
    }
}

/// The view of an optional string slice.
pub open spec fn opt_str_view(s: Option<&str>) -> Option<Seq<char>> {
    match s {
        Some(s) => Some(s@),
        None => None,
    }
}

/// Treats a missing, empty or white-space-only string as "not set".
pub fn empty_string_as_none(value: Option<String>) -> (res: Option<String>)
    ensures
        opt_view(res) == non_blank_spec(opt_view(value)),
{
    match value {
        Some(s) => {
            if is_blank(s.as_str()) {
                None
            } else {
                Some(s)
            }
        },
        None => None,
    }
}

/// Normalising an optional string twice gives what normalising it once does.
pub proof fn lemma_non_blank_idempotent(value: Option<Seq<char>>)
    ensures
        non_blank_spec(non_blank_spec(value)) == non_blank_spec(value),
{
}

/// Character-wise equality of two string slices.
pub fn str_eq(a: &str, b: &str) -> (res: bool)
    ensures
        res == (a@ == b@),
{
    let n = a.unicode_len();
    let m = b.unicode_len();
    if n != m {
        return false;
    }
    for i in 0..n
        invariant
            n == a@.len(),
            m == b@.len(),
            n == m,
            forall|j: int| 0 <= j < i ==> a@[j] == b@[j],
    {
        if a.get_char(i) != b.get_char(i) {
            return false;
        }
    }
    assert(a@ =~= b@);
    true
}

/// Equality of two optional strings by their contents.
pub fn opt_string_eq(a: &Option<String>, b: &Option<String>) -> (res: bool)
    ensures
        res == (opt_view(*a) == opt_view(*b)),
{
    match (a, b) {
        (Some(x), Some(y)) => str_eq(x.as_str(), y.as_str()),
        (None, None) => true,
        _ => false,
    }
}

/// Whether an optional string holds exactly `s`.
pub fn opt_string_is(a: &Option<String>, s: &str) -> (res: bool)
    ensures
        res == (opt_view(*a) == Some(s@)),
{
    match a {
        Some(x) => str_eq(x.as_str(), s),
        None => false,
    }
}

/// The character of decimal digit `d`.
pub open spec fn digit_char(d: nat) -> char {
    ((48 + d) as u32) as char
}

/// The decimal representation of `n`, without leading zeros.
pub open spec fn decimal_spec(n: nat) -> Seq<char>
    decreases n,
{
    if n < 10 {
        seq![digit_char(n)]
    } else {
        decimal_spec(n / 10) + seq![digit_char(n % 10)]
    }
}

/// The one-character string of decimal digit `d`.
pub fn digit_str(d: u64) -> (s: &'static str)
    requires
        d < 10,
    ensures
        s@ == seq![digit_char(d as nat)],
{
    match d {
        0 => {
            proof {
                reveal_strlit("0");
            }
            "0"
        },
        1 => {
            proof {
                reveal_strlit("1");
            }
            "1"
        },
        2 => {
            proof {
                reveal_strlit("2");
            }
            "2"
        },
        3 => {
            proof {
                reveal_strlit("3");
            }
            "3"
        },
        4 => {
            proof {
                reveal_strlit("4");
            }
            "4"
        },
        5 => {
            proof {
                reveal_strlit("5");
            }
            "5"
        },
        6 => {
            proof {
                reveal_strlit("6");
            }
            "6"
        },
        7 => {
            proof {
                reveal_strlit("7");
            }
            "7"
        },
        8 => {
            proof {
                reveal_strlit("8");
            }
            "8"
        },
        _ => {
            proof {
                reveal_strlit("9");
            }
            "9"
        },
    }
}

/// `n` written in decimal, as `u64::to_string` writes it.
pub fn u64_to_decimal(n: u64) -> (s: String)
    ensures
        s@ == decimal_spec(n as nat),
    decreases n,
{
    if n < 10 {
        String::from_str(digit_str(n))
    } else {
        let mut s = u64_to_decimal(n / 10);
        s.append(digit_str(n % 10));
        s
    }
}

/// `title` cut down to at most `max_chars` characters: kept whole when it
/// fits, otherwise its first `max_chars - 1` characters (at least one)
/// followed by an ellipsis.
pub open spec fn truncated_spec(title: Seq<char>, max_chars: nat) -> Seq<char> {
    if title.len() <= max_chars {
        title
    } else {
        let keep: int = if max_chars >= 2 { max_chars - 1 } else { 1 };
        title.subrange(0, keep) + seq!['\u{2026}']
    }
}

/// Shortens `title` to a character budget, marking the cut with `…`.
pub fn truncate_to_chars(title: &str, max_chars: usize) -> (s: String)
    ensures
        s@ == truncated_spec(title@, max_chars as nat),
{
    let n = title.unicode_len();
    if n <= max_chars {
        return String::from_str(title);
    }
    let keep = if max_chars >= 2 { max_chars - 1 } else { 1 };
    let ellipsis = "\u{2026}";
    proof {
        reveal_strlit("\u{2026}");
    }
    String::from_str(title.substring_char(0, keep)).concat(ellipsis)
}

/// A shortened title never runs past its budget by more than the single
/// ellipsis of a budget below two, and always starts like the original.
pub proof fn law_truncation_fits(title: Seq<char>, max_chars: nat)
    ensures
        truncated_spec(title, max_chars).len() <= if max_chars >= 2 { max_chars } else { 2 },
        truncated_spec(title, max_chars).len() <= title.len() || title.len() <= max_chars || (
        max_chars < 2 && title.len() == 1),
        forall|i: int|
            0 <= i < truncated_spec(title, max_chars).len() && i < title.len() && (title.len()
                <= max_chars || i < truncated_spec(title, max_chars).len() - 1) ==> #[trigger] truncated_spec(
                title,
                max_chars,
            )[i] == title[i],
{
}

} // verus!
