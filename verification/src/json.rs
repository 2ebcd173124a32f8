//! JSON text primitives for the engine's own documents: escaping on output,
//! and whitespace, literal, number and string readers for input. The readers
//! mirror spec-level parsers exactly.

use vstd::prelude::*;
use crate::digest::hex_digit_char;
use crate::text::{dec_of, dec_of_i64, digit_char};

verus! {

/// JSON string escaping of one character, as the engine writes it: quote,
/// backslash and the named controls by a two-character escape, other control
/// characters as `\u00` and two lowercase hex digits, everything else as
/// itself.
pub open spec fn esc_char(c: char) -> Seq<char> {
    if c == '"' {
        seq!['\\', '"']
    } else if c == '\\' {
        seq!['\\', '\\']
    } else if c == '\u{8}' {
        seq!['\\', 'b']
    } else if c == '\t' {
        seq!['\\', 't']
    } else if c == '\n' {
        seq!['\\', 'n']
    } else if c == '\u{c}' {
        seq!['\\', 'f']
    } else if c == '\r' {
        seq!['\\', 'r']
    } else if (c as u32) < 32 {
        seq!['\\', 'u', '0', '0'] + seq![
            hex_digit_char((c as u32) as int / 16),
            hex_digit_char((c as u32) as int % 16),
        ]
    } else {
        seq![c]
    }
}

/// JSON string escaping of a whole string.
pub open spec fn json_escape(s: Seq<char>) -> Seq<char>
    decreases s.len(),
{
    if s.len() == 0 {
        Seq::empty()
    } else {
        esc_char(s[0]) + json_escape(s.drop_first())
    }
}

proof fn lemma_json_escape_push(s: Seq<char>, c: char)
    ensures
        json_escape(s.push(c)) == json_escape(s) + esc_char(c),
    decreases s.len(),
{
    if s.len() == 0 {
        assert(s.push(c).drop_first() =~= Seq::<char>::empty());
        assert(s.push(c)[0] == c);
        assert(json_escape(Seq::<char>::empty()) == Seq::<char>::empty());
        assert(esc_char(c) + Seq::<char>::empty() =~= esc_char(c));
        assert(Seq::<char>::empty() + esc_char(c) =~= esc_char(c));
        assert(json_escape(s) == Seq::<char>::empty());
    } else {
        assert(s.push(c).drop_first() =~= s.drop_first().push(c));
        lemma_json_escape_push(s.drop_first(), c);
        assert(s.push(c)[0] == s[0]);
        assert(json_escape(s.push(c)) == esc_char(s[0]) + (json_escape(s.drop_first()) + esc_char(
            c,
        )));
        assert(esc_char(s[0]) + (json_escape(s.drop_first()) + esc_char(c)) =~= (esc_char(s[0])
            + json_escape(s.drop_first())) + esc_char(c));
    }
}

/// Appends one lowercase hex digit for a nibble.
fn push_hex_nibble(v: &mut Vec<char>, d: u8)
    requires
        d < 16,
    ensures
        final(v)@ == old(v)@ + seq![hex_digit_char(d as int)],
{
    if d < 10 {
        v.push((48 + d) as char);
    } else {
        v.push((87 + d) as char);
    }
    assert(v@ =~= old(v)@ + seq![hex_digit_char(d as int)]);
}

/// Appends the JSON escaping of `s` to `v`.
pub fn push_json_escaped(v: &mut Vec<char>, s: &str)
    ensures
        final(v)@ == old(v)@ + json_escape(s@),
{
    let n = s.unicode_len();
    let mut i: usize = 0;
    assert(json_escape(s@.take(0)) =~= Seq::<char>::empty());
    assert(v@ =~= old(v)@ + json_escape(s@.take(0)));
    while i < n
        invariant
            i <= n,
            n == s@.len(),
            v@ == old(v)@ + json_escape(s@.take(i as int)),
        decreases n - i,
    {
        let c = s.get_char(i);
        if c == '"' {
            v.push('\\');
            v.push('"');
        } else if c == '\\' {
            v.push('\\');
            v.push('\\');
        } else if c == '\u{8}' {
            v.push('\\');
            v.push('b');
        } else if c == '\t' {
            v.push('\\');
            v.push('t');
        } else if c == '\n' {
            v.push('\\');
            v.push('n');
        } else if c == '\u{c}' {
            v.push('\\');
            v.push('f');
        } else if c == '\r' {
            v.push('\\');
            v.push('r');
        } else if (c as u32) < 32 {
            v.push('\\');
            v.push('u');
            v.push('0');
            v.push('0');
            let code = c as u32;
            push_hex_nibble(v, (code / 16) as u8);
            push_hex_nibble(v, (code % 16) as u8);
        } else {
            v.push(c);
        }
        proof {
            lemma_json_escape_push(s@.take(i as int), s@[i as int]);
            assert(s@.take(i as int).push(s@[i as int]) =~= s@.take(i + 1));
            assert(v@ =~= old(v)@ + json_escape(s@.take(i + 1)));
        }
        i += 1;
    }
    assert(s@.take(n as int) =~= s@);
}

/// A character the renderer writes as itself inside a JSON string: not the
/// quote, not the backslash, not a control character.
pub open spec fn is_plain_char(c: char) -> bool {
    c != '"' && c != '\\' && (c as u32) >= 32
}

/// Escaping leaves a string of plain characters unchanged.
pub proof fn lemma_json_escape_plain(s: Seq<char>)
    requires
        forall|i: int| 0 <= i < s.len() ==> is_plain_char(#[trigger] s[i]),
    ensures
        json_escape(s) == s,
    decreases s.len(),
{
    if s.len() == 0 {
        assert(json_escape(s) =~= s);
    } else {
        lemma_json_escape_plain(s.drop_first());
        assert(is_plain_char(s[0]));
        assert(esc_char(s[0]) =~= seq![s[0]]);
        assert(json_escape(s) =~= seq![s[0]] + s.drop_first());
        assert(seq![s[0]] + s.drop_first() =~= s);
    }
}

/// JSON whitespace.
pub open spec fn is_json_ws(c: char) -> bool {
    c == ' ' || c == '\t' || c == '\n' || c == '\r'
}

/// The first position at or after `i` holding a non-whitespace character.
pub open spec fn ws_end(s: Seq<char>, i: int) -> int
    decreases s.len() - i,
    when 0 <= i <= s.len()
{
    if i < s.len() && is_json_ws(s[i]) {
        ws_end(s, i + 1)
    } else {
        i
    }
}

pub proof fn lemma_ws_end_bounds(s: Seq<char>, i: int)
    requires
        0 <= i <= s.len(),
    ensures
        i <= ws_end(s, i) <= s.len(),
    decreases s.len() - i,
{
    if i < s.len() && is_json_ws(s[i]) {
        lemma_ws_end_bounds(s, i + 1);
    }
}

/// Advances past JSON whitespace.
pub fn skip_ws(v: &Vec<char>, i: usize) -> (r: usize)
    requires
        i <= v@.len(),
    ensures
        r == ws_end(v@, i as int),
        i <= r <= v@.len(),
{
    let n = v.len();
    let mut j = i;
    while j < n && (v[j] == ' ' || v[j] == '\t' || v[j] == '\n' || v[j] == '\r')
        invariant
            i <= j <= n,
            n == v@.len(),
            ws_end(v@, i as int) == ws_end(v@, j as int),
        decreases n - j,
    {
        j += 1;
    }
    j
}

/// The literal `lit` occurs at position `i` of `s`.
pub open spec fn lit_at(s: Seq<char>, i: int, lit: Seq<char>) -> bool {
    0 <= i && i + lit.len() <= s.len() && s.subrange(i, i + lit.len()) == lit
}

/// Checks the literal `lit` at position `i`; on success returns the position
/// just past it.
pub fn eat_lit(v: &Vec<char>, i: usize, lit: &str) -> (r: Option<usize>)
    requires
        i <= v@.len(),
    ensures
        r is Some <==> lit_at(v@, i as int, lit@),
        r matches Some(j) ==> j == i + lit@.len() && j <= v@.len(),
{
    let m = lit.unicode_len();
    let n = v.len();
    if m > n - i {
        assert(!lit_at(v@, i as int, lit@));
        return None;
    }
    let mut k: usize = 0;
    while k < m
        invariant
            k <= m,
            i + m <= n,
            n == v@.len(),
            m == lit@.len(),
            forall|j: int| 0 <= j < k ==> v@[i + j] == lit@[j],
        decreases m - k,
    {
        if v[i + k] != lit.get_char(k) {
            assert(v@.subrange(i as int, i + m)[k as int] != lit@[k as int]);
            return None;
        }
        k += 1;
    }
    assert(v@.subrange(i as int, i + m) =~= lit@);
    Some(i + m)
}

/// A decimal digit.
pub open spec fn is_digit(c: char) -> bool {
    '0' <= c && c <= '9'
}

/// The first position at or after `i` holding a non-digit.
pub open spec fn digits_end(s: Seq<char>, i: int) -> int
    decreases s.len() - i,
    when 0 <= i <= s.len()
{
    if i < s.len() && is_digit(s[i]) {
        digits_end(s, i + 1)
    } else {
        i
    }
}

pub proof fn lemma_digits_end_bounds(s: Seq<char>, i: int)
    requires
        0 <= i <= s.len(),
    ensures
        i <= digits_end(s, i) <= s.len(),
        forall|j: int| i <= j < digits_end(s, i) ==> is_digit(#[trigger] s[j]),
    decreases s.len() - i,
{
    if i < s.len() && is_digit(s[i]) {
        lemma_digits_end_bounds(s, i + 1);
    }
}

/// The value of the digit run `s[i..j)`.
pub open spec fn digits_val(s: Seq<char>, i: int, j: int) -> int
    decreases j - i,
    when i <= j
{
    if i >= j {
        0
    } else {
        digits_val(s, i, j - 1) * 10 + ((s[j - 1] as u32) - 48)
    }
}

pub proof fn lemma_digits_val_nonneg(s: Seq<char>, i: int, j: int)
    requires
        0 <= i <= j <= s.len(),
        forall|k: int| i <= k < j ==> is_digit(#[trigger] s[k]),
    ensures
        digits_val(s, i, j) >= 0,
    decreases j - i,
{
    if i < j {
        lemma_digits_val_nonneg(s, i, j - 1);
    }
}

/// A parsed JSON integer: its value and the position just past it, or
/// nothing when no digits stand at `i` or the value does not fit a 64-bit
/// signed integer.
pub open spec fn parse_i64_at(s: Seq<char>, i: int) -> Option<(int, int)> {
    if !(0 <= i <= s.len()) {
        None
    } else {
        let neg = i < s.len() && s[i] == '-';
        let start = if neg {
            i + 1
        } else {
            i
        };
        let j = digits_end(s, start);
        if j == start {
            None
        } else {
            let m = digits_val(s, start, j);
            let val = if neg {
                -m
            } else {
                m
            };
            if val < -9223372036854775808 || val > 9223372036854775807 {
                None
            } else {
                Some((val, j))
            }
        }
    }
}

/// Reads a JSON integer at position `i`.
pub fn parse_i64(v: &Vec<char>, i: usize) -> (r: Option<(i64, usize)>)
    requires
        i <= v@.len(),
    ensures
        r is Some <==> parse_i64_at(v@, i as int) is Some,
        r matches Some(p) ==> parse_i64_at(v@, i as int) matches Some(q) && p.0 as int == q.0
            && p.1 as int == q.1 && p.1 <= v@.len(),
{
    let n = v.len();
    let neg = i < n && v[i] == '-';
    let start = if neg {
        i + 1
    } else {
        i
    };
    proof {
        lemma_digits_end_bounds(v@, start as int);
    }
    let ghost jg = digits_end(v@, start as int);
    // find the end of the digit run
    let mut j = start;
    while j < n && v[j] >= '0' && v[j] <= '9'
        invariant
            start <= j <= n,
            n == v@.len(),
            digits_end(v@, start as int) == digits_end(v@, j as int),
        decreases n - j,
    {
        j += 1;
    }
    assert(j as int == jg);
    if j == start {
        return None;
    }
    proof {
        lemma_digits_end_bounds(v@, start as int);
    }
    // the magnitude bound the token must respect
    let limit: u64 = if neg {
        9223372036854775808u64
    } else {
        9223372036854775807u64
    };
    let mut acc: u64 = 0;
    let mut over = false;
    let mut k = start;
    while k < j
        invariant
            start <= k <= j <= n,
            n == v@.len(),
            j as int == digits_end(v@, start as int),
            limit == if neg {
                9223372036854775808u64
            } else {
                9223372036854775807u64
            },
            forall|t: int| start <= t < j ==> is_digit(#[trigger] v@[t]),
            !over ==> acc as int == digits_val(v@, start as int, k as int) && acc <= limit,
            over ==> digits_val(v@, start as int, k as int) > limit,
        decreases j - k,
    {
        let c = v[k];
        let d: u64 = (c as u32 - 48) as u64;
        proof {
            lemma_digits_val_nonneg(v@, start as int, k as int);
        }
        if !over {
            if acc > (limit - d) / 10 {
                assert(acc * 10 + d > limit) by (nonlinear_arith)
                    requires
                        acc > (limit - d) / 10,
                        d <= limit,
                        acc >= 0,
                ;
                over = true;
            } else {
                assert(acc * 10 + d <= limit) by (nonlinear_arith)
                    requires
                        acc <= (limit - d) / 10,
                        d <= limit,
                        acc >= 0,
                ;
                acc = acc * 10 + d;
            }
        } else {
            proof {
                let dv = digits_val(v@, start as int, k as int);
                assert(dv * 10 >= dv) by (nonlinear_arith)
                    requires
                        dv > 0,
                ;
            }
        }
        k += 1;
    }
    if over {
        proof {
            let m = digits_val(v@, start as int, j as int);
            if neg {
                assert(-m < -9223372036854775808);
            } else {
                assert(m > 9223372036854775807);
            }
        }
        return None;
    }
    let val: i64 = if neg {
        if acc == 9223372036854775808u64 {
            i64::MIN
        } else {
            -(acc as i64)
        }
    } else {
        acc as i64
    };
    Some((val, j))
}

/// Every character of a non-negative decimal rendering is a digit.
pub proof fn lemma_dec_of_digits(n: int)
    requires
        n >= 0,
    ensures
        dec_of(n).len() >= 1,
        forall|i: int| 0 <= i < dec_of(n).len() ==> is_digit(#[trigger] dec_of(n)[i]),
    decreases n,
{
    if n < 10 {
        assert(is_digit(digit_char(n % 10)));
    } else {
        lemma_dec_of_digits(n / 10);
        assert(is_digit(digit_char(n % 10)));
        assert forall|i: int| 0 <= i < dec_of(n).len() implies is_digit(
            #[trigger] dec_of(n)[i],
        ) by {
            if i < dec_of(n / 10).len() {
                assert(dec_of(n)[i] == dec_of(n / 10)[i]);
            } else {
                assert(dec_of(n)[i] == digit_char(n % 10));
            }
        }
    }
}

/// A digit run that renders `n` reads back as the value `n`.
pub proof fn lemma_digits_val_of_dec(s: Seq<char>, i: int, n: int)
    requires
        n >= 0,
        0 <= i,
        i + dec_of(n).len() <= s.len(),
        s.subrange(i, i + dec_of(n).len()) == dec_of(n),
    ensures
        digits_val(s, i, i + dec_of(n).len()) == n,
    decreases n,
{
    let len = dec_of(n).len();
    if n < 10 {
        assert(s[i] == dec_of(n)[0]);
        assert(s[i] == digit_char(n));
        assert((s[i] as u32) - 48 == n);
        assert(digits_val(s, i, i + 1) == digits_val(s, i, i) * 10 + ((s[i] as u32) - 48));
    } else {
        let lp = dec_of(n / 10).len();
        assert(len == lp + 1);
        assert forall|t: int| 0 <= t < lp implies #[trigger] s.subrange(i, i + lp)[t] == dec_of(
            n / 10,
        )[t] by {
            assert(s.subrange(i, i + len)[t] == dec_of(n)[t]);
            assert(dec_of(n)[t] == dec_of(n / 10)[t]);
        }
        assert(s.subrange(i, i + lp) =~= dec_of(n / 10));
        lemma_digits_val_of_dec(s, i, n / 10);
        assert(s[i + lp] == dec_of(n)[lp as int]);
        assert(s[i + lp] == digit_char(n % 10));
        assert((s[i + lp] as u32) - 48 == n % 10);
        assert(digits_val(s, i, i + len) == digits_val(s, i, i + lp) * 10 + ((s[i + lp] as u32)
            - 48));
    }
}

/// The digit run from `i` ends exactly where the digits end.
pub proof fn lemma_digits_end_at(s: Seq<char>, i: int, j: int)
    requires
        0 <= i <= j <= s.len(),
        forall|t: int| i <= t < j ==> is_digit(#[trigger] s[t]),
        j == s.len() || !is_digit(s[j]),
    ensures
        digits_end(s, i) == j,
    decreases j - i,
{
    if i < j {
        lemma_digits_end_at(s, i + 1, j);
    }
}

/// A rendered signed number, followed by anything but a digit, reads back
/// as the number it renders.
pub proof fn lemma_parse_i64_of_dec(s: Seq<char>, i: int, n: int)
    requires
        -9223372036854775808 <= n <= 9223372036854775807,
        0 <= i,
        i + dec_of_i64(n).len() <= s.len(),
        s.subrange(i, i + dec_of_i64(n).len()) == dec_of_i64(n),
        i + dec_of_i64(n).len() == s.len() || !is_digit(s[i + dec_of_i64(n).len()]),
    ensures
        parse_i64_at(s, i) == Some((n, i + dec_of_i64(n).len())),
{
    let len = dec_of_i64(n).len();
    if n >= 0 {
        lemma_dec_of_digits(n);
        assert forall|t: int| i <= t < i + len implies is_digit(#[trigger] s[t]) by {
            assert(s.subrange(i, i + len)[t - i] == dec_of(n)[t - i]);
        }
        assert(s[i] == dec_of(n)[0]);
        assert(is_digit(s[i]));
        assert(s[i] != '-');
        lemma_digits_end_at(s, i, i + len);
        lemma_digits_val_of_dec(s, i, n);
    } else {
        let m = -n;
        assert(dec_of_i64(n) == seq!['-'] + dec_of(m));
        assert(s[i] == dec_of_i64(n)[0]);
        assert(s[i] == '-');
        lemma_dec_of_digits(m);
        assert forall|t: int| 0 <= t < dec_of(m).len() implies s.subrange(
            i + 1,
            i + len,
        )[t] == dec_of(m)[t] by {
            assert(s.subrange(i, i + len)[t + 1] == dec_of_i64(n)[t + 1]);
            assert(dec_of_i64(n)[t + 1] == dec_of(m)[t]);
        }
        assert(s.subrange(i + 1, i + len) =~= dec_of(m));
        assert forall|t: int| i + 1 <= t < i + len implies is_digit(#[trigger] s[t]) by {
            assert(s.subrange(i + 1, i + len)[t - i - 1] == dec_of(m)[t - i - 1]);
        }
        lemma_digits_end_at(s, i + 1, i + len);
        lemma_digits_val_of_dec(s, i + 1, m);
    }
}

/// Reading a string body of plain characters stops at the closing quote and
/// returns exactly those characters.
pub proof fn lemma_parse_str_body_plain(s: Seq<char>, i: int, k: int)
    requires
        0 <= i <= k < s.len(),
        forall|j: int| i <= j < k ==> is_plain_char(#[trigger] s[j]),
        s[k] == '"',
    ensures
        parse_str_body(s, i) == Some((s.subrange(i, k), k + 1)),
    decreases k - i,
{
    if i == k {
        assert(s.subrange(i, k) =~= Seq::<char>::empty());
    } else {
        assert(is_plain_char(s[i]));
        lemma_parse_str_body_plain(s, i + 1, k);
        assert(seq![s[i]] + s.subrange(i + 1, k) =~= s.subrange(i, k));
    }
}

/// The replacement for a two-character escape, when the second character
/// names one.
pub open spec fn esc_code(e: char) -> Option<char> {
    if e == '"' {
        Some('"')
    } else if e == '\\' {
        Some('\\')
    } else if e == '/' {
        Some('/')
    } else if e == 'b' {
        Some('\u{8}')
    } else if e == 'f' {
        Some('\u{c}')
    } else if e == 'n' {
        Some('\n')
    } else if e == 'r' {
        Some('\r')
    } else if e == 't' {
        Some('\t')
    } else {
        None
    }
}

/// A lowercase or uppercase hex digit and its value.
pub open spec fn hex_val(c: char) -> Option<int> {
    if '0' <= c && c <= '9' {
        Some((c as u32) - 48)
    } else if 'a' <= c && c <= 'f' {
        Some((c as u32) - 87)
    } else if 'A' <= c && c <= 'F' {
        Some((c as u32) - 55)
    } else {
        None
    }
}

/// The body of a JSON string from position `i` (just past the opening
/// quote): the decoded characters and the position just past the closing
/// quote. Escapes understood are the two-character ones and `\u00` with two
/// hex digits.
pub open spec fn parse_str_body(s: Seq<char>, i: int) -> Option<(Seq<char>, int)>
    decreases s.len() - i,
    when 0 <= i <= s.len()
{
    if i >= s.len() {
        None
    } else if s[i] == '"' {
        Some((Seq::empty(), i + 1))
    } else if s[i] == '\\' {
        if i + 1 >= s.len() {
            None
        } else if s[i + 1] == 'u' {
            if i + 6 > s.len() {
                None
            } else if s[i + 2] == '0' && s[i + 3] == '0' && hex_val(s[i + 4]) is Some && hex_val(
                s[i + 5],
            ) is Some {
                let code = 16 * hex_val(s[i + 4])->Some_0 + hex_val(s[i + 5])->Some_0;
                match parse_str_body(s, i + 6) {
                    Some(p) => Some((seq![(code as u8) as char] + p.0, p.1)),
                    None => None,
                }
            } else {
                None
            }
        } else {
            match esc_code(s[i + 1]) {
                Some(c) => match parse_str_body(s, i + 2) {
                    Some(p) => Some((seq![c] + p.0, p.1)),
                    None => None,
                },
                None => None,
            }
        }
    } else {
        match parse_str_body(s, i + 1) {
            Some(p) => Some((seq![s[i]] + p.0, p.1)),
            None => None,
        }
    }
}

pub proof fn lemma_parse_str_body_end(s: Seq<char>, i: int)
    requires
        0 <= i <= s.len(),
    ensures
        parse_str_body(s, i) matches Some(p) ==> i < p.1 <= s.len(),
    decreases s.len() - i,
{
    if i >= s.len() {
    } else if s[i] == '"' {
    } else if s[i] == '\\' {
        if i + 1 >= s.len() {
        } else if s[i + 1] == 'u' {
            if i + 6 <= s.len() {
                lemma_parse_str_body_end(s, i + 6);
            }
        } else {
            lemma_parse_str_body_end(s, i + 2);
        }
    } else {
        lemma_parse_str_body_end(s, i + 1);
    }
}

/// A JSON string at position `i`: the opening quote, the body, the closing
/// quote.
pub open spec fn parse_string_at(s: Seq<char>, i: int) -> Option<(Seq<char>, int)> {
    if 0 <= i < s.len() && s[i] == '"' {
        parse_str_body(s, i + 1)
    } else {
        None
    }
}

/// Reads a JSON string at position `i`, decoding escapes.
pub fn parse_string(v: &Vec<char>, i: usize) -> (r: Option<(Vec<char>, usize)>)
    requires
        i <= v@.len(),
    ensures
        r is Some <==> parse_string_at(v@, i as int) is Some,
        r matches Some(p) ==> parse_string_at(v@, i as int) matches Some(q) && p.0@ == q.0
            && p.1 as int == q.1 && p.1 <= v@.len(),
{
    let n = v.len();
    if !(i < n && v[i] == '"') {
        return None;
    }
    let mut acc: Vec<char> = Vec::new();
    let mut j = i + 1;
    proof {
        if parse_str_body(v@, i + 1) is Some {
            let p = parse_str_body(v@, i + 1)->Some_0;
            assert(Seq::<char>::empty() + p.0 =~= p.0);
        }
    }
    loop
        invariant
            i < n,
            v@[i as int] == '"',
            i + 1 <= j <= n,
            n == v@.len(),
            parse_str_body(v@, i + 1) == match parse_str_body(v@, j as int) {
                Some(p) => Some((acc@ + p.0, p.1)),
                None => None::<(Seq<char>, int)>,
            },
        decreases n - j,
    {
        if j >= n {
            return None;
        }
        let c = v[j];
        if c == '"' {
            proof {
                assert(parse_str_body(v@, j as int) == Some((Seq::<char>::empty(), j + 1)));
                assert(acc@ + Seq::<char>::empty() =~= acc@);
            }
            return Some((acc, j + 1));
        }
        let ghost acc0 = acc@;
        if c == '\\' {
            if j + 1 >= n {
                return None;
            }
            let e = v[j + 1];
            if e == 'u' {
                if n - j < 6 {
                    return None;
                }
                if !(v[j + 2] == '0' && v[j + 3] == '0') {
                    return None;
                }
                let h1 = hex_nibble_val(v[j + 4]);
                let h2 = hex_nibble_val(v[j + 5]);
                match (h1, h2) {
                    (Some(a), Some(b)) => {
                        let code: u8 = 16 * a + b;
                        acc.push(code as char);
                        proof {
                            assert(parse_str_body(v@, j as int) == (match parse_str_body(
                                v@,
                                j + 6,
                            ) {
                                Some(p) => Some((seq![(code as u8) as char] + p.0, p.1)),
                                None => None::<(Seq<char>, int)>,
                            }));
                            if parse_str_body(v@, j + 6) is Some {
                                let p = parse_str_body(v@, j + 6)->Some_0;
                                assert(acc0 + (seq![(code as u8) as char] + p.0) =~= acc@ + p.0);
                            }
                        }
                        j += 6;
                    },
                    _ => {
                        return None;
                    },
                }
            } else {
                match esc_code_exec(e) {
                    Some(c2) => {
                        acc.push(c2);
                        proof {
                            assert(parse_str_body(v@, j as int) == (match parse_str_body(
                                v@,
                                j + 2,
                            ) {
                                Some(p) => Some((seq![c2] + p.0, p.1)),
                                None => None::<(Seq<char>, int)>,
                            }));
                            if parse_str_body(v@, j + 2) is Some {
                                let p = parse_str_body(v@, j + 2)->Some_0;
                                assert(acc0 + (seq![c2] + p.0) =~= acc@ + p.0);
                            }
                        }
                        j += 2;
                    },
                    None => {
                        return None;
                    },
                }
            }
        } else {
            acc.push(c);
            proof {
                assert(parse_str_body(v@, j as int) == (match parse_str_body(v@, j + 1) {
                    Some(p) => Some((seq![c] + p.0, p.1)),
                    None => None::<(Seq<char>, int)>,
                }));
                if parse_str_body(v@, j + 1) is Some {
                    let p = parse_str_body(v@, j + 1)->Some_0;
                    assert(acc0 + (seq![c] + p.0) =~= acc@ + p.0);
                }
            }
            j += 1;
        }
    }
}

/// Decides `hex_val`.
fn hex_nibble_val(c: char) -> (r: Option<u8>)
    ensures
        r is Some <==> hex_val(c) is Some,
        r matches Some(d) ==> hex_val(c) == Some(d as int) && d < 16,
{
    if c >= '0' && c <= '9' {
        Some((c as u32 - 48) as u8)
    } else if c >= 'a' && c <= 'f' {
        Some((c as u32 - 87) as u8)
    } else if c >= 'A' && c <= 'F' {
        Some((c as u32 - 55) as u8)
    } else {
        None
    }
}

/// Decides `esc_code`.
fn esc_code_exec(e: char) -> (r: Option<char>)
    ensures
        r == esc_code(e),
{
    if e == '"' {
        Some('"')
    } else if e == '\\' {
        Some('\\')
    } else if e == '/' {
        Some('/')
    } else if e == 'b' {
        Some('\u{8}')
    } else if e == 'f' {
        Some('\u{c}')
    } else if e == 'n' {
        Some('\n')
    } else if e == 'r' {
        Some('\r')
    } else if e == 't' {
        Some('\t')
    } else {
        None
    }
}

} // verus!
