//! Text shaping for feed lines: newline collapsing, word wrapping, handle
//! parsing, and digit rendering.

use vstd::prelude::*;
use vstd::string::StrSliceExecFns;

verus! {

/// The characters collapsed into a single separator glyph.
pub open spec fn is_line_break(c: char) -> bool {
    c == '\r' || c == '\n'
}

/// The contribution of the last character of `s` to the collapsed text: an
/// ordinary character stands for itself, the first character of a line-break
/// run becomes the separator glyph and a space, and the rest of a run is
/// dropped.
pub open spec fn last_break_contrib(s: Seq<char>) -> Seq<char>
    recommends
        s.len() > 0,
{
    if !is_line_break(s[s.len() - 1]) {
        seq![s[s.len() - 1]]
    } else if s.len() >= 2 && is_line_break(s[s.len() - 2]) {
        Seq::<char>::empty()
    } else {
        seq!['\u{23ce}', ' ']
    }
}

/// `s` with every maximal run of `'\r'`/`'\n'` characters replaced by the
/// two-character sequence `"\u{23ce} "`.
pub open spec fn collapsed_newlines(s: Seq<char>) -> Seq<char>
    decreases s.len(),
{
    if s.len() == 0 {
        Seq::<char>::empty()
    } else {
        collapsed_newlines(s.drop_last()) + last_break_contrib(s)
    }
}

/// The characters of `s`, in order.
pub fn str_to_chars(s: &str) -> (r: Vec<char>)
    ensures
        r@ == s@,
{
    let n = s.unicode_len();
    let mut r: Vec<char> = Vec::new();
    let mut i: usize = 0;
    while i < n
        invariant
            i <= n,
            n == s@.len(),
            r@ == s@.take(i as int),
        decreases n - i,
    {
        r.push(s.get_char(i));
        i = i + 1;
        proof {
            assert(r@ =~= s@.take(i as int));
        }
    }
    proof {
        assert(s@.take(n as int) =~= s@);
    }
    r
}

/// Relies on `String: FromIterator<char>` (`collect`): the built string holds
/// exactly the given characters, in order.
#[verifier::external_body]
pub(crate) fn chars_to_string(v: &Vec<char>) -> (r: String)
    ensures
        r@ == v@,
{
    v.iter().collect()
}

/// Whether two string slices hold the same characters.
pub fn str_eq_str(a: &str, b: &str) -> (r: bool)
    ensures
        r == (a@ == b@),
{
    let n = a.unicode_len();
    let m = b.unicode_len();
    if n != m {
        proof {
            assert(a@ != b@);
        }
        return false;
    }
    let mut i: usize = 0;
    while i < n
        invariant
            i <= n,
            n == a@.len(),
            n == b@.len(),
            forall|j: int| 0 <= j < i ==> a@[j] == b@[j],
        decreases n - i,
    {
        if a.get_char(i) != b.get_char(i) {
            return false;
        }
        i = i + 1;
    }
    proof {
        assert(a@ =~= b@);
    }
    true
}

/// Collapses every run of carriage returns and newlines in `text` into a
/// single separator glyph followed by a space.
pub fn collapse_newlines(text: &str) -> (r: String)
    ensures
        r@ == collapsed_newlines(text@),
{
    let chars = str_to_chars(text);
    let mut out: Vec<char> = Vec::new();
    let mut i: usize = 0;
    while i < chars.len()
        invariant
            i <= chars.len(),
            chars@ == text@,
            out@ == collapsed_newlines(chars@.take(i as int)),
        decreases chars.len() - i,
    {
        let c = chars[i];
        if c == '\r' || c == '\n' {
            let run_continues = i > 0 && {
                let p = chars[i - 1];
                p == '\r' || p == '\n'
            };
            if !run_continues {
                out.push('\u{23ce}');
                out.push(' ');
            }
        } else {
            out.push(c);
        }
        i = i + 1;
        proof {
            let t = chars@.take(i as int);
            assert(t.drop_last() =~= chars@.take(i - 1));
            assert(t[t.len() - 1] == chars@[i - 1]);
            assert(out@ =~= collapsed_newlines(chars@.take(i - 1)) + last_break_contrib(t));
        }
    }
    proof {
        assert(chars@.take(chars@.len() as int) =~= chars@);
    }
    chars_to_string(&out)
}

/// What `textwrap::wrap` returns for a given text and width; the result
/// depends on the text and the width alone.
pub uninterp spec fn wrap_lines(s: Seq<char>, width: int) -> Seq<Seq<char>>;

/// Relies on `textwrap::wrap`: deterministic word-wrapping of `s` into lines
/// for a display `width` columns wide.
#[verifier::external_body]
fn wrap_via_textwrap(s: &str, width: usize) -> (r: Vec<String>)
    ensures
        r.deep_view() == wrap_lines(s@, width as int),
{
    textwrap::wrap(s, width).into_iter().map(|line| line.into_owned()).collect()
}

/// Word-wraps `s` to `width` columns.
pub fn wrap_text(s: &str, width: usize) -> (r: Vec<String>)
    ensures
        r.deep_view() == wrap_lines(s@, width as int),
{
    wrap_via_textwrap(s, width)
}

/// A character allowed in a handle: ASCII letters, digits, and underscore.
pub open spec fn is_handle_char(c: char) -> bool {
    ('a' <= c && c <= 'z') || ('A' <= c && c <= 'Z') || ('0' <= c && c <= '9') || c == '_'
}

/// Holds when `s` is an `@handle` search term: a leading `@` followed by one
/// or more handle characters.
pub open spec fn is_handle_query(s: Seq<char>) -> bool {
    &&& s.len() >= 2
    &&& s[0] == '@'
    &&& forall|i: int| 1 <= i < s.len() ==> is_handle_char(#[trigger] s[i])
}

fn is_handle_char_exec(c: char) -> (r: bool)
    ensures
        r == is_handle_char(c),
{
    ('a' <= c && c <= 'z') || ('A' <= c && c <= 'Z') || ('0' <= c && c <= '9') || c == '_'
}

/// Recognizes an `@handle` search term and returns the handle without the
/// leading `@`; any other term is rejected.
pub fn parse_twitter_handle(term: &str) -> (r: Option<String>)
    ensures
        r is Some <==> is_handle_query(term@),
        r matches Some(u) ==> u@ == term@.skip(1),
{
    let chars = str_to_chars(term);
    if chars.len() < 2 {
        return None;
    }
    if chars[0] != '@' {
        return None;
    }
    let mut i: usize = 1;
    while i < chars.len()
        invariant
            1 <= i <= chars.len(),
            chars@ == term@,
            forall|j: int| 1 <= j < i ==> is_handle_char(#[trigger] chars@[j]),
        decreases chars.len() - i,
    {
        if !is_handle_char_exec(chars[i]) {
            return None;
        }
        i = i + 1;
    }
    let mut rest: Vec<char> = Vec::new();
    let mut k: usize = 1;
    while k < chars.len()
        invariant
            1 <= k <= chars.len(),
            chars@ == term@,
            rest@ == chars@.subrange(1, k as int),
        decreases chars.len() - k,
    {
        rest.push(chars[k]);
        k = k + 1;
        proof {
            assert(rest@ =~= chars@.subrange(1, k as int));
        }
    }
    proof {
        assert(chars@.subrange(1, chars@.len() as int) =~= chars@.skip(1));
    }
    Some(chars_to_string(&rest))
}

/// The decimal digit character for `d`.
pub open spec fn digit_char(d: int) -> char
    recommends
        0 <= d < 10,
{
    if d == 0 {
        '0'
    } else if d == 1 {
        '1'
    } else if d == 2 {
        '2'
    } else if d == 3 {
        '3'
    } else if d == 4 {
        '4'
    } else if d == 5 {
        '5'
    } else if d == 6 {
        '6'
    } else if d == 7 {
        '7'
    } else if d == 8 {
        '8'
    } else {
        '9'
    }
}

/// `n` written with exactly two decimal digits.
pub open spec fn two_digits(n: int) -> Seq<char>
    recommends
        0 <= n < 100,
{
    seq![digit_char(n / 10), digit_char(n % 10)]
}

/// `n` written with exactly four decimal digits.
pub open spec fn four_digits(n: int) -> Seq<char>
    recommends
        0 <= n < 10000,
{
    seq![
        digit_char(n / 1000),
        digit_char((n / 100) % 10),
        digit_char((n / 10) % 10),
        digit_char(n % 10),
    ]
}

fn digit_char_exec(d: u8) -> (r: char)
    requires
        d < 10,
    ensures
        r == digit_char(d as int),
{
    if d == 0 {
        '0'
    } else if d == 1 {
        '1'
    } else if d == 2 {
        '2'
    } else if d == 3 {
        '3'
    } else if d == 4 {
        '4'
    } else if d == 5 {
        '5'
    } else if d == 6 {
        '6'
    } else if d == 7 {
        '7'
    } else if d == 8 {
        '8'
    } else {
        '9'
    }
}

/// Appends `n` zero-padded to two digits.
pub fn push_two_digits(out: &mut Vec<char>, n: u8)
    requires
        n < 100,
    ensures
        final(out)@ == old(out)@ + two_digits(n as int),
{
    out.push(digit_char_exec(n / 10));
    out.push(digit_char_exec(n % 10));
    proof {
        assert(out@ =~= old(out)@ + two_digits(n as int));
    }
}

/// Appends `n` zero-padded to four digits.
pub fn push_four_digits(out: &mut Vec<char>, n: u16)
    requires
        n < 10000,
    ensures
        final(out)@ == old(out)@ + four_digits(n as int),
{
    out.push(digit_char_exec((n / 1000) as u8));
    out.push(digit_char_exec(((n / 100) % 10) as u8));
    out.push(digit_char_exec(((n / 10) % 10) as u8));
    out.push(digit_char_exec((n % 10) as u8));
    proof {
        assert(out@ =~= old(out)@ + four_digits(n as int));
    }
}

/// The decimal digits of `n`, most significant first.
pub open spec fn dec_chars(n: int) -> Seq<char>
    recommends
        n >= 0,
    decreases n,
{
    if n < 10 {
        seq![digit_char(n)]
    } else {
        dec_chars(n / 10).push(digit_char(n % 10))
    }
}

/// Appends `n` in decimal.
pub fn push_usize(out: &mut Vec<char>, n: usize)
    ensures
        final(out)@ == old(out)@ + dec_chars(n as int),
{
    let mut digits: Vec<char> = Vec::new();
    let mut m: usize = n;
    digits.push(digit_char_exec((m % 10) as u8));
    m = m / 10;
    while m > 0
        invariant
            digits@.len() >= 1,
            dec_chars(n as int) == if m > 0 {
                dec_chars(m as int) + digits@.reverse()
            } else {
                digits@.reverse()
            },
        decreases m,
    {
        let ghost prev = digits@;
        let ghost m0 = m as int;
        digits.push(digit_char_exec((m % 10) as u8));
        m = m / 10;
        proof {
            assert(digits@.reverse() =~= seq![digit_char(m0 % 10)] + prev.reverse());
            if m > 0 {
                assert(dec_chars(m0) == dec_chars(m0 / 10).push(digit_char(m0 % 10)));
                assert(dec_chars(m0) + prev.reverse() =~= dec_chars(m as int)
                    + digits@.reverse());
            } else {
                assert(dec_chars(m0) + prev.reverse() =~= digits@.reverse());
            }
        }
    }
    let mut k: usize = 0;
    let total = digits.len();
    while k < total
        invariant
            k <= total,
            total == digits@.len(),
            out@ == old(out)@ + digits@.reverse().take(k as int),
        decreases total - k,
    {
        out.push(digits[total - 1 - k]);
        k = k + 1;
        proof {
            assert(digits@.reverse()[k - 1] == digits@[total - k]);
            assert(out@ =~= old(out)@ + digits@.reverse().take(k as int));
        }
    }
    proof {
        assert(digits@.reverse().take(total as int) =~= digits@.reverse());
    }
}

/// `a - b`, saturating at zero.
pub open spec fn sat_sub(a: int, b: int) -> int {
    if a >= b {
        a - b
    } else {
        0
    }
}

/// The first line of `s` wrapped to `width2` columns, cut down to at most
/// `width2` characters.
pub open spec fn truncated_first_line(s: Seq<char>, width2: int) -> Seq<char> {
    let w2 = wrap_lines(s, width2);
    let first = if w2.len() > 0 {
        w2[0]
    } else {
        Seq::<char>::empty()
    };
    if first.len() <= width2 {
        first
    } else {
        first.take(width2)
    }
}

/// A string of `n` spaces.
pub open spec fn spaces(n: int) -> Seq<char> {
    Seq::new(n as nat, |i: int| ' ')
}

/// Builds a string of `n` spaces, as used to clear a row before repainting.
pub fn make_spaces(n: usize) -> (r: String)
    ensures
        r@ == spaces(n as int),
{
    let mut v: Vec<char> = Vec::new();
    let mut i: usize = 0;
    while i < n
        invariant
            i <= n,
            v@ == spaces(i as int),
        decreases n - i,
    {
        v.push(' ');
        i = i + 1;
        proof {
            assert(v@ =~= spaces(i as int));
        }
    }
    chars_to_string(&v)
}

} // verus!
