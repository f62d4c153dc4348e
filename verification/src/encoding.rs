//! Percent-encoding of a path segment, as the key-specific endpoints use it.
//!
//! A character that is alphanumeric (in the Unicode sense of
//! `char::is_alphanumeric`) or one of `-`, `_`, `.`, `~` is kept; any other
//! character becomes `%` followed by its code point in upper-case hexadecimal,
//! at least two digits long.
use vstd::prelude::*;
use crate::text::{chars_of, string_from};

verus! {

broadcast use vstd::string::group_string_axioms;

/// Whether `char::is_alphanumeric` holds of `c` (the Unicode `Alphabetic`
/// property or a numeric general category).
pub uninterp spec fn unicode_alphanumeric(c: char) -> bool;

/// `c` is an ASCII letter or digit.
pub open spec fn is_ascii_alphanumeric(c: char) -> bool {
    let n = c as u32;
    ||| 0x30 <= n <= 0x39
    ||| 0x41 <= n <= 0x5A
    ||| 0x61 <= n <= 0x7A
}

/// `char::is_alphanumeric`. Its result is named `unicode_alphanumeric`; among
/// ASCII characters the `Alphabetic` property and the numeric categories hold
/// of the letters and the digits alone.
#[verifier::external_body]
fn char_is_alphanumeric(c: char) -> (r: bool)
    ensures
        r == unicode_alphanumeric(c),
        (c as u32) < 0x80 ==> (r == is_ascii_alphanumeric(c)),
{
    c.is_alphanumeric()
}

/// The characters that stay as they are.
pub open spec fn is_unreserved(c: char) -> bool {
    unicode_alphanumeric(c) || c == '-' || c == '_' || c == '.' || c == '~'
}

/// The ASCII characters that the encoding lets through: letters, digits,
/// `-`, `_`, `.`, `~`, and the `%` that starts an escape.
pub open spec fn is_segment_safe_ascii(c: char) -> bool {
    is_ascii_alphanumeric(c) || c == '-' || c == '_' || c == '.' || c == '~' || c == '%'
}

/// The upper-case hexadecimal digit of `d`, for `d < 16`.
pub open spec fn hex_digit(d: nat) -> char {
    seq!['0', '1', '2', '3', '4', '5', '6', '7', '8', '9', 'A', 'B', 'C', 'D', 'E', 'F'][d as int]
}

/// The upper-case hexadecimal digits of `n`, without leading zeros.
pub open spec fn hex_upper(n: nat) -> Seq<char>
    decreases n,
{
    if n < 16 {
        seq![hex_digit(n)]
    } else {
        hex_upper(n / 16).push(hex_digit(n % 16))
    }
}

/// `%` and the code point of `c` in hexadecimal, padded to two digits
/// (what `format!("%{:02X}", c as u32)` writes).
pub open spec fn percent_escape(c: char) -> Seq<char> {
    let h = hex_upper(c as nat);
    seq!['%'] + if h.len() < 2 {
        seq!['0'] + h
    } else {
        h
    }
}

/// The encoding of one character.
pub open spec fn encode_char(c: char) -> Seq<char> {
    if is_unreserved(c) {
        seq![c]
    } else {
        percent_escape(c)
    }
}

/// The encoding of one ASCII character: letters, digits, `-`, `_`, `.` and
/// `~` are kept, any other is escaped.
pub open spec fn encode_ascii_char(c: char) -> Seq<char> {
    if is_ascii_alphanumeric(c) || c == '-' || c == '_' || c == '.' || c == '~' {
        seq![c]
    } else {
        percent_escape(c)
    }
}

/// The encoding of a text of ASCII characters.
pub open spec fn ascii_url_encoded(s: Seq<char>) -> Seq<char>
    decreases s.len(),
{
    if s.len() == 0 {
        Seq::empty()
    } else {
        ascii_url_encoded(s.drop_last()) + encode_ascii_char(s.last())
    }
}

/// The encoding of `s`: each character encoded in turn.
pub open spec fn url_encoded(s: Seq<char>) -> Seq<char>
    decreases s.len(),
{
    if s.len() == 0 {
        Seq::empty()
    } else {
        url_encoded(s.drop_last()) + encode_char(s.last())
    }
}

fn hex_digit_char(d: u32) -> (c: char)
    requires
        d < 16,
    ensures
        c == hex_digit(d as nat),
        is_ascii_alphanumeric(c),
{
    let digits: [char; 16] = ['0', '1', '2', '3', '4', '5', '6', '7', '8', '9', 'A', 'B', 'C', 'D', 'E', 'F'];
    assert(digits@ =~= seq!['0', '1', '2', '3', '4', '5', '6', '7', '8', '9', 'A', 'B', 'C', 'D', 'E', 'F']);
    digits[d as usize]
}

/// The digits of a hexadecimal number are ASCII letters or digits.
proof fn lemma_hex_upper_ascii(n: nat)
    ensures
        hex_upper(n).len() >= 1,
        forall|i: int| 0 <= i < hex_upper(n).len() ==> is_ascii_alphanumeric(#[trigger] hex_upper(n)[i]),
    decreases n,
{
    let t = seq!['0', '1', '2', '3', '4', '5', '6', '7', '8', '9', 'A', 'B', 'C', 'D', 'E', 'F'];
    assert forall|d: nat| d < 16 implies is_ascii_alphanumeric(#[trigger] hex_digit(d)) by {
        assert(hex_digit(d) == t[d as int]);
    }
    if n >= 16 {
        lemma_hex_upper_ascii(n / 16);
    }
}

/// Appends the upper-case hexadecimal digits of `n` to `out`.
fn push_hex(out: &mut Vec<char>, n: u32)
    ensures
        final(out)@ == old(out)@ + hex_upper(n as nat),
    decreases n,
{
    if n < 16 {
        out.push(hex_digit_char(n));
        assert(old(out)@.push(hex_digit(n as nat)) =~= old(out)@ + seq![hex_digit(n as nat)]);
    } else {
        push_hex(out, n / 16);
        out.push(hex_digit_char(n % 16));
        assert(old(out)@ + hex_upper((n / 16) as nat).push(hex_digit((n % 16) as nat)) =~= (old(
            out,
        )@ + hex_upper((n / 16) as nat)).push(hex_digit((n % 16) as nat)));
    }
}

/// Appends `percent_escape(c)` to `out`.
fn push_escape(out: &mut Vec<char>, c: char)
    ensures
        final(out)@ == old(out)@ + percent_escape(c),
{
    let n: u32 = c as u32;
    let mut digits: Vec<char> = Vec::new();
    push_hex(&mut digits, n);
    assert(digits@ =~= hex_upper(n as nat));
    out.push('%');
    if digits.len() < 2 {
        out.push('0');
    }
    let mut i: usize = 0;
    let ghost mid = out@;
    while i < digits.len()
        invariant
            i <= digits.len(),
            out@ == mid + digits@.take(i as int),
        decreases digits.len() - i,
    {
        out.push(digits[i]);
        assert(mid + digits@.take(i + 1) =~= (mid + digits@.take(i as int)).push(digits@[i as int]));
        i = i + 1;
    }
    assert(digits@.take(digits@.len() as int) =~= digits@);
    proof {
        let h = hex_upper(n as nat);
        if h.len() < 2 {
            assert(out@ =~= old(out)@ + (seq!['%'] + (seq!['0'] + h)));
        } else {
            assert(out@ =~= old(out)@ + (seq!['%'] + h));
        }
    }
}

/// Every character of `s` is ASCII.
pub open spec fn all_ascii(s: Seq<char>) -> bool {
    forall|i: int| 0 <= i < s.len() ==> (#[trigger] s[i] as u32) < 0x80
}

/// Every character of `s` is an ASCII letter or digit, `-`, `_`, `.` or `~`.
pub open spec fn all_unreserved_ascii(s: Seq<char>) -> bool {
    forall|i: int| 0 <= i < s.len() ==> #[trigger] is_segment_safe_ascii(s[i]) && s[i] != '%'
}

/// Every ASCII character of `s` is one that a segment may hold.
pub open spec fn segment_safe(s: Seq<char>) -> bool {
    forall|i: int| 0 <= i < s.len() && (s[i] as u32) < 0x80 ==> is_segment_safe_ascii(#[trigger] s[i])
}

/// Percent-encodes `s` for use as one path segment.
///
/// The result is `url_encoded(s)`. Among ASCII characters it holds only
/// letters, digits, `-`, `_`, `.`, `~` and `%`, so no `/`, `?`, `#` or space
/// can split or end the segment; and a string made only of ASCII letters,
/// digits, `-`, `_`, `.` and `~` comes back unchanged. For ASCII text the
/// result is `ascii_url_encoded(s)`.
pub fn urlencoding_encode(s: &str) -> (r: String)
    ensures
        r@ == url_encoded(s@),
        all_ascii(s@) ==> r@ == ascii_url_encoded(s@),
        segment_safe(r@),
        all_unreserved_ascii(s@) ==> r@ == s@,
{
    let cs = chars_of(s);
    let mut out: Vec<char> = Vec::new();
    let mut i: usize = 0;
    while i < cs.len()
        invariant
            i <= cs.len(),
            cs@ == s@,
            out@ == url_encoded(cs@.take(i as int)),
            all_ascii(cs@.take(i as int)) ==> out@ == ascii_url_encoded(cs@.take(i as int)),
            segment_safe(out@),
            all_unreserved_ascii(cs@.take(i as int)) ==> out@ == cs@.take(i as int),
        decreases cs.len() - i,
    {
        let c = cs[i];
        let ghost before = out@;
        let ghost t = cs@.take(i + 1);
        proof {
            assert(t.drop_last() =~= cs@.take(i as int));
            assert(t.last() == c);
            if all_ascii(t) {
                assert(t[i as int] == c);
                assert(all_ascii(cs@.take(i as int))) by {
                    assert forall|j: int| 0 <= j < i implies (#[trigger] cs@.take(i as int)[j] as u32) < 0x80 by {
                        assert(cs@.take(i as int)[j] == t[j]);
                    }
                }
            }
            if all_unreserved_ascii(t) {
                assert(t[i as int] == c);
                assert(all_unreserved_ascii(cs@.take(i as int))) by {
                    assert forall|j: int| 0 <= j < i implies #[trigger] is_segment_safe_ascii(cs@.take(i as int)[j]) && cs@.take(i as int)[j] != '%' by {
                        assert(cs@.take(i as int)[j] == t[j]);
                    }
                }
            }
        }
        let alnum = char_is_alphanumeric(c);
        if alnum || c == '-' || c == '_' || c == '.' || c == '~' {
            out.push(c);
            proof {
                if (c as u32) < 0x80 {
                    assert(is_segment_safe_ascii(c));
                }
                assert forall|k: int| 0 <= k < out@.len() && (out@[k] as u32) < 0x80 implies is_segment_safe_ascii(#[trigger] out@[k]) by {
                    if k < before.len() {
                        assert(out@[k] == before[k]);
                    }
                }
                if all_unreserved_ascii(t) {
                    assert(out@ =~= t);
                }
            }
        } else {
            push_escape(&mut out, c);
            proof {
                let h = hex_upper(c as nat);
                lemma_hex_upper_ascii(c as nat);
                let esc = percent_escape(c);
                assert(out@ =~= before + esc);
                assert forall|k: int| 0 <= k < out@.len() && (out@[k] as u32) < 0x80 implies is_segment_safe_ascii(#[trigger] out@[k]) by {
                    if k < before.len() {
                        assert(out@[k] == before[k]);
                    } else if k == before.len() {
                        assert(out@[k] == '%');
                    } else if h.len() < 2 {
                        if k == before.len() + 1 {
                            assert(out@[k] == '0');
                        } else {
                            assert(out@[k] == h[k - before.len() - 2]);
                        }
                    } else {
                        assert(out@[k] == h[k - before.len() - 1]);
                    }
                }
                if all_unreserved_ascii(t) {
                    assert(is_segment_safe_ascii(t[i as int]) && t[i as int] != '%');
                    assert(false);
                }
            }
        }
        i = i + 1;
    }
    assert(cs@.take(cs@.len() as int) =~= cs@);
    string_from(&out)
}

} // verus!
