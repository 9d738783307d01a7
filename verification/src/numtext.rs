//! Verified text utilities: decimal parsing and formatting of `i32` values,
//! ASCII case-insensitive comparison, and plain string comparison helpers.
//!
//! These back the URL classifier (numeric id suffixes, host matching) and the
//! query-parameter builders (numeric values rendered in decimal).

use vstd::prelude::*;

verus! {

/// A decimal digit.
pub open spec fn is_digit_char(c: char) -> bool {
    '0' <= c && c <= '9'
}

/// The numeric value of a decimal digit character.
pub open spec fn digit_val(c: char) -> int {
    c as int - '0' as int
}

/// The digit character for a value below ten.
pub open spec fn digit_char(d: int) -> char {
    ('0' as int + d) as char
}

/// Every character of `s` is a decimal digit.
pub open spec fn all_digits(s: Seq<char>) -> bool {
    forall|i: int| 0 <= i < s.len() ==> is_digit_char(s[i])
}

/// The value of a digit string, most significant digit first.
pub open spec fn digits_value(s: Seq<char>) -> int
    decreases s.len(),
{
    if s.len() == 0 {
        0
    } else {
        digits_value(s.drop_last()) * 10 + digit_val(s.last())
    }
}

/// What `parse_i32` accepts: an optional sign followed by at least one
/// digit, whose value fits in an `i32`; the same strings `str::parse::<i32>`
/// accepts.
pub open spec fn spec_parse_i32(s: Seq<char>) -> Option<int> {
    let signed = s.len() > 0 && (s[0] == '+' || s[0] == '-');
    let body = if signed {
        s.subrange(1, s.len() as int)
    } else {
        s
    };
    let neg = s.len() > 0 && s[0] == '-';
    if body.len() == 0 || !all_digits(body) {
        None
    } else {
        let v = if neg {
            -digits_value(body)
        } else {
            digits_value(body)
        };
        if i32::MIN <= v <= i32::MAX {
            Some(v)
        } else {
            None
        }
    }
}

/// The decimal rendering of an integer: a minus sign for negatives,
/// digits without leading zeros otherwise.
pub open spec fn spec_dec_digits(n: int) -> Seq<char>
    decreases n,
{
    if n <= 0 {
        Seq::empty()
    } else {
        spec_dec_digits(n / 10).push(digit_char(n % 10))
    }
}

/// What `i32_to_string` produces for a value.
pub open spec fn spec_i32_string(v: int) -> Seq<char> {
    if v == 0 {
        seq!['0']
    } else if v < 0 {
        seq!['-'] + spec_dec_digits(-v)
    } else {
        spec_dec_digits(v)
    }
}

/// A digit string is worth at least its prefix: appending digits can only
/// grow a nonnegative value.
proof fn lemma_digits_value_nonneg(s: Seq<char>)
    requires
        all_digits(s),
    ensures
        digits_value(s) >= 0,
    decreases s.len(),
{
    if s.len() > 0 {
        lemma_digits_value_nonneg(s.drop_last());
    }
}

proof fn lemma_digits_value_prefix(s: Seq<char>, i: int)
    requires
        all_digits(s),
        0 <= i <= s.len(),
    ensures
        digits_value(s.subrange(0, i)) <= digits_value(s),
    decreases s.len() - i,
{
    if i < s.len() {
        lemma_digits_value_prefix(s, i + 1);
        let a = s.subrange(0, i);
        let b = s.subrange(0, i + 1);
        assert(b.drop_last() =~= a);
        assert(all_digits(a)) by {
            assert(forall|j: int| 0 <= j < a.len() ==> a[j] == s[j]);
        }
        lemma_digits_value_nonneg(a);
        assert(digits_value(b) == digits_value(a) * 10 + digit_val(b.last()));
        assert(digits_value(a) * 10 >= digits_value(a)) by (nonlinear_arith)
            requires digits_value(a) >= 0;
    } else {
        assert(s.subrange(0, i) =~= s);
    }
}

/// Parse a decimal `i32`, accepting exactly the strings `spec_parse_i32`
/// gives a value for: an optional `+` or `-` sign, then one or more digits,
/// in range.
pub fn parse_i32(s: &str) -> (r: Option<i32>)
    ensures
        match r {
            Some(v) => spec_parse_i32(s@) == Some(v as int),
            None => spec_parse_i32(s@) is None,
        },
{
    let len = s.unicode_len();
    let mut i: usize = 0;
    let mut neg = false;
    if len > 0 {
        let c0 = s.get_char(0);
        if c0 == '+' || c0 == '-' {
            i = 1;
            neg = c0 == '-';
        }
    }
    let ghost body = if i == 1 { s@.subrange(1, s@.len() as int) } else { s@ };
    if i >= len {
        // empty body: no digits at all
        return None;
    }
    let start = i;
    let mut mag: u64 = 0;
    while i < len
        invariant
            start <= i <= len,
            start == if s@.len() > 0 && (s@[0] == '+' || s@[0] == '-') { 1int } else { 0int },
            len == s@.len(),
            body == s@.subrange(start as int, len as int),
            all_digits(s@.subrange(start as int, i as int)),
            mag == digits_value(s@.subrange(start as int, i as int)),
            mag <= 0x8000_0000u64,
        decreases len - i,
    {
        let c = s.get_char(i);
        if !(c >= '0' && c <= '9') {
            assert(!all_digits(body)) by {
                assert(body[i - start] == s@[i as int]);
            }
            return None;
        }
        let d: u64 = (c as u32 - 48) as u64;
        assert(d == digit_val(c));
        let next = mag * 10 + d;
        proof {
            let pre = s@.subrange(start as int, i as int);
            let cur = s@.subrange(start as int, i + 1int);
            assert(cur.drop_last() =~= pre);
            assert(cur.last() == s@[i as int]);
            assert(digits_value(cur) == mag * 10 + d);
        }
        if next > 0x8000_0000u64 {
            // too large already; whatever follows, the string is rejected
            proof {
                let cur = s@.subrange(start as int, i + 1int);
                if s@.len() > 0 && (s@[0] == '+' || s@[0] == '-') {
                    assert(body =~= s@.subrange(1, s@.len() as int));
                } else {
                    assert(body =~= s@);
                }
                if all_digits(body) {
                    lemma_digits_value_prefix(body, i + 1 - start);
                    assert(body.subrange(0, i + 1 - start) =~= cur);
                    assert(digits_value(body) > 0x8000_0000);
                    assert(spec_parse_i32(s@) is None);
                } else {
                    assert(spec_parse_i32(s@) is None);
                }
            }
            return None;
        }
        mag = next;
        i = i + 1;
    }
    proof {
        assert(s@.subrange(start as int, i as int) =~= body);
        if s@.len() > 0 && (s@[0] == '+' || s@[0] == '-') {
            assert(body =~= s@.subrange(1, s@.len() as int));
        } else {
            assert(body =~= s@);
        }
    }
    if neg {
        if mag == 0x8000_0000u64 {
            Some(i32::MIN)
        } else {
            Some(-(mag as i32))
        }
    } else {
        if mag == 0x8000_0000u64 {
            None
        } else {
            Some(mag as i32)
        }
    }
}

/// Append one digit character to a string.
fn append_digit(s: &mut String, d: u64)
    requires
        d < 10,
    ensures
        final(s)@ == old(s)@.push(digit_char(d as int)),
{
    let part: &str = match d {
        0 => "0",
        1 => "1",
        2 => "2",
        3 => "3",
        4 => "4",
        5 => "5",
        6 => "6",
        7 => "7",
        8 => "8",
        _ => "9",
    };
    proof {
        reveal_strlit("0");
        reveal_strlit("1");
        reveal_strlit("2");
        reveal_strlit("3");
        reveal_strlit("4");
        reveal_strlit("5");
        reveal_strlit("6");
        reveal_strlit("7");
        reveal_strlit("8");
        reveal_strlit("9");
    }
    assert(part@ =~= seq![digit_char(d as int)]);
    s.append(part);
    assert(s@ =~= old(s)@.push(digit_char(d as int)));
}

/// Append the decimal digits of a positive value.
fn append_dec_digits(n: u64, s: &mut String)
    requires
        n > 0,
    ensures
        final(s)@ == old(s)@ + spec_dec_digits(n as int),
    decreases n,
{
    if n >= 10 {
        append_dec_digits(n / 10, s);
    } else {
        assert(spec_dec_digits(n as int / 10) =~= Seq::<char>::empty());
    }
    append_digit(s, n % 10);
    assert(s@ =~= old(s)@ + spec_dec_digits(n as int));
}

/// Render an `i32` in decimal, as `ToString` would.
pub fn i32_to_string(v: i32) -> (r: String)
    ensures
        r@ == spec_i32_string(v as int),
{
    let mut s = String::new();
    if v == 0 {
        append_digit(&mut s, 0);
        assert(s@ =~= spec_i32_string(0));
        return s;
    }
    let mag: u64;
    if v < 0 {
        proof {
            reveal_strlit("-");
        }
        s.append("-");
        assert(s@ =~= seq!['-']);
        mag = (-(v as i64)) as u64;
    } else {
        mag = v as u64;
    }
    append_dec_digits(mag, &mut s);
    s
}

/// The decimal digits of a positive value are digits, at least one of
/// them, and spell the value back.
proof fn lemma_dec_digits_value(n: int)
    requires
        n > 0,
    ensures
        all_digits(spec_dec_digits(n)),
        spec_dec_digits(n).len() >= 1,
        digits_value(spec_dec_digits(n)) == n,
    decreases n,
{
    let s = spec_dec_digits(n);
    assert(s == spec_dec_digits(n / 10).push(digit_char(n % 10)));
    assert(s.drop_last() =~= spec_dec_digits(n / 10));
    if n >= 10 {
        lemma_dec_digits_value(n / 10);
    } else {
        assert(spec_dec_digits(n / 10) =~= Seq::<char>::empty());
        assert(digits_value(Seq::<char>::empty()) == 0);
    }
    assert(digit_val(digit_char(n % 10)) == n % 10);
    assert(s.last() == digit_char(n % 10));
    assert(digits_value(s) == digits_value(s.drop_last()) * 10 + digit_val(s.last()));
    assert(digits_value(s) == (n / 10) * 10 + n % 10);
    assert(forall|i: int| 0 <= i < s.len() - 1 ==> s[i] == s.drop_last()[i]);
}

/// Law: rendering a value in decimal and parsing it back yields the value
/// again.
pub proof fn lemma_decimal_round_trip(v: int)
    requires
        i32::MIN <= v <= i32::MAX,
    ensures
        spec_parse_i32(spec_i32_string(v)) == Some(v),
{
    let s = spec_i32_string(v);
    if v == 0 {
        assert(digits_value(seq!['0']) == 0) by {
            assert(seq!['0'].drop_last() =~= Seq::<char>::empty());
            assert(digits_value(Seq::<char>::empty()) == 0);
            assert(seq!['0'].last() == '0');
            assert(digit_val('0') == 0);
        }
        assert(all_digits(seq!['0']));
    } else if v > 0 {
        lemma_dec_digits_value(v);
        assert(s[0] != '+' && s[0] != '-') by {
            assert(is_digit_char(s[0]));
        }
    } else {
        lemma_dec_digits_value(-v);
        let body = s.subrange(1, s.len() as int);
        assert(body =~= spec_dec_digits(-v));
        assert(s[0] == '-');
    }
}

/// The ASCII lowercase of a character; others are unchanged.
pub open spec fn lower_char(c: char) -> char {
    if 'A' <= c && c <= 'Z' {
        (c as int + 32) as char
    } else {
        c
    }
}

/// Equal up to ASCII case, character by character.
pub open spec fn ascii_eq_ignore_case(a: Seq<char>, b: Seq<char>) -> bool {
    a.len() == b.len() && forall|i: int| 0 <= i < a.len() ==> lower_char(a[i]) == lower_char(b[i])
}

fn lower_char_exec(c: char) -> (r: char)
    ensures
        r == lower_char(c),
{
    if c >= 'A' && c <= 'Z' {
        let b: u8 = c as u8;
        assert(b == c as int) by {
            assert('A' as u32 == 65 && 'Z' as u32 == 90);
        }
        (b + 32) as char
    } else {
        c
    }
}

/// Compare two strings up to ASCII case, as `str::eq_ignore_ascii_case` does.
pub fn eq_ignore_ascii_case(a: &str, b: &str) -> (r: bool)
    ensures
        r == ascii_eq_ignore_case(a@, b@),
{
    let alen = a.unicode_len();
    let blen = b.unicode_len();
    if alen != blen {
        return false;
    }
    let mut i: usize = 0;
    while i < alen
        invariant
            0 <= i <= alen,
            alen == a@.len(),
            alen == b@.len(),
            forall|j: int| 0 <= j < i ==> lower_char(a@[j]) == lower_char(b@[j]),
        decreases alen - i,
    {
        let ca = lower_char_exec(a.get_char(i));
        let cb = lower_char_exec(b.get_char(i));
        if ca != cb {
            return false;
        }
        i = i + 1;
    }
    true
}

/// Exact string equality, by view.
pub fn str_eq(a: &str, b: &str) -> (r: bool)
    ensures
        r == (a@ == b@),
{
    let alen = a.unicode_len();
    let blen = b.unicode_len();
    if alen != blen {
        return false;
    }
    let mut i: usize = 0;
    while i < alen
        invariant
            0 <= i <= alen,
            alen == a@.len(),
            alen == b@.len(),
            forall|j: int| 0 <= j < i ==> a@[j] == b@[j],
        decreases alen - i,
    {
        if a.get_char(i) != b.get_char(i) {
            return false;
        }
        i = i + 1;
    }
    proof {
        assert(a@ =~= b@);
    }
    true
}

/// Whether `p` is a prefix of `s`, as `str::starts_with` decides it.
pub fn str_starts_with(s: &str, p: &str) -> (r: bool)
    ensures
        r == p@.is_prefix_of(s@),
{
    let slen = s.unicode_len();
    let plen = p.unicode_len();
    if plen > slen {
        assert(!p@.is_prefix_of(s@));
        return false;
    }
    let mut i: usize = 0;
    while i < plen
        invariant
            0 <= i <= plen,
            plen == p@.len(),
            slen == s@.len(),
            plen <= slen,
            forall|j: int| 0 <= j < i ==> s@[j] == p@[j],
        decreases plen - i,
    {
        if s.get_char(i) != p.get_char(i) {
            assert(!p@.is_prefix_of(s@)) by {
                assert(s@.subrange(0, p@.len() as int)[i as int] == s@[i as int]);
            }
            return false;
        }
        i = i + 1;
    }
    proof {
        assert(s@.subrange(0, p@.len() as int) =~= p@);
    }
    true
}

/// The substring of `s` from character `from` to the end.
pub fn str_suffix_from(s: &str, from: usize) -> (r: &str)
    requires
        from <= s@.len(),
    ensures
        r@ == s@.subrange(from as int, s@.len() as int),
{
    let len = s.unicode_len();
    s.substring_char(from, len)
}

} // verus!
