//! Decimal text: parsing integers and decimals, and writing integers.

use vstd::prelude::*;

verus! {

pub open spec fn is_digit(c: char) -> bool {
    '0' <= c && c <= '9'
}

pub open spec fn all_digits(s: Seq<char>) -> bool {
    s.len() > 0 && forall|i: int| 0 <= i < s.len() ==> is_digit(#[trigger] s[i])
}

/// The value of a string of decimal digits.
pub open spec fn digits_value(s: Seq<char>) -> int
    decreases s.len(),
{
    if s.len() == 0 {
        0
    } else {
        digits_value(s.drop_last()) * 10 + (s.last() as int - '0' as int)
    }
}

/// The integer that `s` spells: an optional sign, then one or more digits.
pub open spec fn int_of_text(s: Seq<char>) -> Option<int> {
    if s.len() > 0 && s[0] == '-' && all_digits(s.drop_first()) {
        Some(-digits_value(s.drop_first()))
    } else if s.len() > 0 && s[0] == '+' && all_digits(s.drop_first()) {
        Some(digits_value(s.drop_first()))
    } else if all_digits(s) {
        Some(digits_value(s))
    } else {
        None
    }
}

/// The `i64` that `s` spells, if it spells one in range.
pub open spec fn i64_of_text(s: Seq<char>) -> Option<i64> {
    match int_of_text(s) {
        Some(n) => if i64::MIN <= n <= i64::MAX {
            Some(n as i64)
        } else {
            None
        },
        None => None,
    }
}

/// Decimal notation without a sign: digits, optionally a point and more digits.
pub open spec fn is_unsigned_decimal(u: Seq<char>) -> bool {
    &&& u.len() > 0
    &&& is_digit(u[0])
    &&& is_digit(u.last())
    &&& forall|i: int| 0 <= i < u.len() ==> is_digit(#[trigger] u[i]) || u[i] == '.'
    &&& forall|i: int, j: int| 0 <= i < u.len() && 0 <= j < u.len() && #[trigger] u[i] == '.' && #[trigger] u[j] == '.' ==> i == j
}

/// Plain decimal notation: an optional minus sign, digits, optionally a point
/// and more digits.
pub open spec fn is_plain_decimal(s: Seq<char>) -> bool {
    if s.len() > 0 && s[0] == '-' {
        is_unsigned_decimal(s.drop_first())
    } else {
        is_unsigned_decimal(s)
    }
}

pub open spec fn is_exponent_marker(c: char) -> bool {
    c == 'e' || c == 'E'
}

/// Decimal notation: plain decimal notation, optionally followed by `e` or
/// `E` and an integer exponent with an optional sign (`-10.55`, `1e-7`).
pub open spec fn is_decimal_text(s: Seq<char>) -> bool {
    ||| is_plain_decimal(s)
    ||| exists|k: int|
        0 <= k < s.len() && is_exponent_marker(#[trigger] s[k]) && is_plain_decimal(
            s.subrange(0, k),
        ) && int_of_text(s.subrange(k + 1, s.len() as int)) is Some
}

/// The decimal digits of a natural number, most significant first.
pub open spec fn nat_text(n: nat) -> Seq<char>
    decreases n,
{
    if n < 10 {
        seq![digit_char(n)]
    } else {
        nat_text(n / 10).push(digit_char(n % 10))
    }
}

pub open spec fn digit_char(d: nat) -> char {
    (d + '0' as nat) as char
}

/// The decimal text of an integer, with a leading minus sign when negative.
pub open spec fn int_text(n: int) -> Seq<char> {
    if n < 0 {
        seq!['-'] + nat_text((-n) as nat)
    } else {
        nat_text(n as nat)
    }
}

proof fn lemma_digits_value_prefix(s: Seq<char>, i: int)
    requires
        0 <= i < s.len(),
    ensures
        digits_value(s.subrange(0, i + 1)) == digits_value(s.subrange(0, i)) * 10 + (s[i] as int
            - '0' as int),
{
    assert(s.subrange(0, i + 1).drop_last() =~= s.subrange(0, i));
}

proof fn lemma_digits_value_grows(s: Seq<char>, i: int)
    requires
        0 <= i <= s.len(),
        forall|k: int| 0 <= k < s.len() ==> is_digit(#[trigger] s[k]),
    ensures
        digits_value(s.subrange(0, i)) <= digits_value(s),
        digits_value(s.subrange(0, i)) >= 0,
    decreases s.len() - i,
{
    if i < s.len() {
        lemma_digits_value_prefix(s, i);
        lemma_digits_value_grows(s, i + 1);
    } else {
        assert(s.subrange(0, i) =~= s);
        lemma_digits_value_nonneg(s);
    }
}

proof fn lemma_digits_value_nonneg(s: Seq<char>)
    requires
        forall|k: int| 0 <= k < s.len() ==> is_digit(#[trigger] s[k]),
    ensures
        digits_value(s) >= 0,
    decreases s.len(),
{
    if s.len() > 0 {
        assert forall|k: int| 0 <= k < s.drop_last().len() implies is_digit(
            #[trigger] s.drop_last()[k],
        ) by {
            assert(s.drop_last()[k] == s[k]);
        }
        lemma_digits_value_nonneg(s.drop_last());
    }
}

/// Value of the digits of `s` from `start` on, or `None` if one is not a digit,
/// there are none, or the value exceeds `limit`.
fn digits_up_to(s: &str, start: usize, limit: u64) -> (r: Option<u64>)
    requires
        start <= s@.len(),
    ensures
        ({
            let t = s@.subrange(start as int, s@.len() as int);
            &&& all_digits(t) && digits_value(t) <= limit ==> (r matches Some(v) && v
                == digits_value(t))
            &&& !(all_digits(t) && digits_value(t) <= limit) ==> r is None
        }),
{
    let n = s.unicode_len();
    let ghost t = s@.subrange(start as int, s@.len() as int);
    if start >= n {
        return None;
    }
    let mut acc: u128 = 0;
    let mut i: usize = start;
    while i < n
        invariant
            start <= i <= n,
            n == s@.len(),
            t == s@.subrange(start as int, s@.len() as int),
            acc <= limit,
            forall|k: int| start <= k < i ==> is_digit(#[trigger] s@[k]),
            acc == digits_value(t.subrange(0, i - start)),
        decreases n - i,
    {
        let c = s.get_char(i);
        if !('0' <= c && c <= '9') {
            proof {
                assert(t[i - start] == c);
            }
            return None;
        }
        proof {
            lemma_digits_value_prefix(t, i - start);
            assert(t[i - start] == c);
        }
        let d = (c as u32 - '0' as u32) as u128;
        let next = acc * 10 + d;
        if next > limit as u128 {
            proof {
                assert forall|k: int| 0 <= k < t.len() implies is_digit(#[trigger] t[k]) || !all_digits(t) by {}
                if all_digits(t) {
                    lemma_digits_value_grows(t, i - start + 1);
                }
            }
            return None;
        }
        acc = next;
        i = i + 1;
    }
    proof {
        assert(t.subrange(0, i - start) =~= t);
        assert forall|k: int| 0 <= k < t.len() implies is_digit(#[trigger] t[k]) by {
            assert(t[k] == s@[start + k]);
        }
        lemma_digits_value_nonneg(t);
    }
    Some(acc as u64)
}

/// Reads an `i64` written in decimal: an optional sign and one or more digits.
pub fn parse_i64(s: &str) -> (r: Option<i64>)
    ensures
        r == i64_of_text(s@),
{
    let n = s.unicode_len();
    if n == 0 {
        return None;
    }
    let c0 = s.get_char(0);
    let ghost rest = s@.drop_first();
    if c0 == '-' {
        assert(s@.subrange(1, s@.len() as int) =~= rest);
        match digits_up_to(s, 1, 9223372036854775808u64) {
            Some(v) => {
                if v == 9223372036854775808u64 {
                    Some(i64::MIN)
                } else {
                    Some(-(v as i64))
                }
            },
            None => {
                proof {
                    if all_digits(rest) {
                        assert(digits_value(rest) > 9223372036854775808);
                    }
                }
                None
            },
        }
    } else if c0 == '+' {
        assert(s@.subrange(1, s@.len() as int) =~= rest);
        match digits_up_to(s, 1, 9223372036854775807u64) {
            Some(v) => Some(v as i64),
            None => None,
        }
    } else {
        assert(s@.subrange(0, s@.len() as int) =~= s@);
        assert(!is_digit('-') && !is_digit('+'));
        match digits_up_to(s, 0, 9223372036854775807u64) {
            Some(v) => Some(v as i64),
            None => None,
        }
    }
}

fn is_plain_decimal_str(s: &str) -> (r: bool)
    ensures
        r == is_plain_decimal(s@),
{
    let n = s.unicode_len();
    if n == 0 {
        return false;
    }
    let start: usize = if s.get_char(0) == '-' {
        1
    } else {
        0
    };
    let ghost u = s@.subrange(start as int, n as int);
    assert(u =~= if s@.len() > 0 && s@[0] == '-' {
        s@.drop_first()
    } else {
        s@
    });
    assert(is_plain_decimal(s@) == is_unsigned_decimal(u));
    if start >= n {
        return false;
    }
    let first = s.get_char(start);
    let last = s.get_char(n - 1);
    assert(u[0] == first && u.last() == last);
    if !('0' <= first && first <= '9') || !('0' <= last && last <= '9') {
        return false;
    }
    let mut seen_dot = false;
    let mut dot_at: usize = 0;
    let mut i: usize = start;
    while i < n
        invariant
            start <= i <= n,
            n == s@.len(),
            u == s@.subrange(start as int, n as int),
            is_plain_decimal(s@) == is_unsigned_decimal(u),
            u.len() > 0 && is_digit(u[0]) && is_digit(u.last()),
            forall|k: int| 0 <= k < i - start ==> is_digit(#[trigger] u[k]) || u[k] == '.',
            seen_dot ==> start <= dot_at < i && u[dot_at - start] == '.',
            forall|k: int|
                0 <= k < i - start && #[trigger] u[k] == '.' ==> seen_dot && k == dot_at - start,
        decreases n - i,
    {
        let c = s.get_char(i);
        assert(u[i - start] == c);
        if c == '.' {
            if seen_dot {
                assert(u[dot_at - start] == '.' && u[i - start] == '.');
                assert(!is_unsigned_decimal(u));
                return false;
            }
            seen_dot = true;
            dot_at = i;
        } else if !('0' <= c && c <= '9') {
            assert(!is_unsigned_decimal(u));
            return false;
        }
        i = i + 1;
    }
    true
}

/// The one-character text of a decimal digit.
fn digit_str(d: u64) -> (r: &'static str)
    requires
        d < 10,
    ensures
        r@ == seq![digit_char(d as nat)],
{
    proof {
        reveal_strlit("0");
        reveal_strlit("1");
        reveal_strlit("2");
        reveal_strlit("3");
        reveal_strlit("4");
        reveal_strlit("5");
        reveal_strlit("6");
        reveal_strlit("7");
        reveal_strlit("8");
        reveal_strlit("9");
    }
    match d {
        0 => "0",
        1 => "1",
        2 => "2",
        3 => "3",
        4 => "4",
        5 => "5",
        6 => "6",
        7 => "7",
        8 => "8",
        _ => "9",
    }
}

fn write_nat(n: u64, out: &mut String)
    ensures
        final(out)@ == old(out)@ + nat_text(n as nat),
    decreases n,
{
    if n >= 10 {
        write_nat(n / 10, out);
    }
    out.append(digit_str(n % 10));
    assert(final(out)@ =~= old(out)@ + nat_text(n as nat));
}

/// Appends the decimal text of `n` to `out`.
pub fn write_i64(n: i64, out: &mut String)
    ensures
        final(out)@ == old(out)@ + int_text(n as int),
{
    if n < 0 {
        proof {
            reveal_strlit("-");
        }
        out.append("-");
        let m: u64 = (-(n as i128)) as u64;
        write_nat(m, out);
        assert(final(out)@ =~= old(out)@ + int_text(n as int));
    } else {
        write_nat(n as u64, out);
    }
}

/// The decimal text of `n`.
pub fn i64_text(n: i64) -> (r: String)
    ensures
        r@ == int_text(n as int),
{
    let mut out = String::new();
    write_i64(n, &mut out);
    assert(out@ =~= int_text(n as int));
    out
}

proof fn lemma_nat_text_reads_back(n: nat)
    ensures
        all_digits(nat_text(n)),
        digits_value(nat_text(n)) == n,
    decreases n,
{
    if n < 10 {
        assert(nat_text(n).drop_last() =~= Seq::<char>::empty());
        assert(digit_char(n) as int == n + '0' as int);
        assert(nat_text(n).last() == digit_char(n));
        assert(digits_value(Seq::<char>::empty()) == 0);
        assert(digits_value(nat_text(n)) == digits_value(nat_text(n).drop_last()) * 10 + (
        nat_text(n).last() as int - '0' as int));
    } else {
        lemma_nat_text_reads_back(n / 10);
        let t = nat_text(n);
        assert(t.drop_last() =~= nat_text(n / 10));
        assert(t.last() == digit_char(n % 10));
        assert(digit_char(n % 10) as int == n % 10 + '0' as int);
        assert((n / 10) * 10 + n % 10 == n);
        assert(t.len() > 0);
        assert(digits_value(t) == digits_value(t.drop_last()) * 10 + (t.last() as int - '0' as int));
        assert forall|i: int| 0 <= i < t.len() implies is_digit(#[trigger] t[i]) by {
            if i < t.len() - 1 {
                assert(t[i] == nat_text(n / 10)[i]);
            }
        }
    }
}

/// Writing an integer as decimal text and reading the text back gives the
/// same integer.
pub proof fn lemma_int_text_reads_back(n: i64)
    ensures
        i64_of_text(int_text(n as int)) == Some(n),
{
    if n < 0 {
        let m = (-(n as int)) as nat;
        lemma_nat_text_reads_back(m);
        let t = int_text(n as int);
        assert(t.drop_first() =~= nat_text(m));
        assert(t[0] == '-');
    } else {
        lemma_nat_text_reads_back(n as nat);
        let t = nat_text(n as nat);
        assert(is_digit(t[0]));
    }
}

proof fn lemma_plain_decimal_has_no_marker(t: Seq<char>, i: int)
    requires
        is_plain_decimal(t),
        0 <= i < t.len(),
    ensures
        !is_exponent_marker(t[i]),
{
    if t.len() > 0 && t[0] == '-' {
        if i > 0 {
            assert(t.drop_first()[i - 1] == t[i]);
        }
    } else {
        assert(is_digit(t[i]) || t[i] == '.');
    }
}

/// Whether the characters of `s` from `start` on are one or more digits.
fn all_digits_from(s: &str, start: usize) -> (r: bool)
    requires
        start <= s@.len(),
    ensures
        r == all_digits(s@.subrange(start as int, s@.len() as int)),
{
    let n = s.unicode_len();
    let ghost t = s@.subrange(start as int, s@.len() as int);
    if start >= n {
        return false;
    }
    let mut i: usize = start;
    while i < n
        invariant
            start <= i <= n,
            n == s@.len(),
            t == s@.subrange(start as int, s@.len() as int),
            forall|k: int| 0 <= k < i - start ==> is_digit(#[trigger] t[k]),
        decreases n - i,
    {
        let c = s.get_char(i);
        assert(t[i - start] == c);
        if !('0' <= c && c <= '9') {
            return false;
        }
        i = i + 1;
    }
    true
}

/// Whether `s` is an integer: an optional sign, then one or more digits.
fn is_integer_text(s: &str) -> (r: bool)
    ensures
        r == int_of_text(s@) is Some,
{
    let n = s.unicode_len();
    if n == 0 {
        return false;
    }
    let c = s.get_char(0);
    if c == '-' || c == '+' {
        assert(s@.subrange(1, s@.len() as int) =~= s@.drop_first());
        assert(!is_digit(s@[0]));
        all_digits_from(s, 1)
    } else {
        assert(s@.subrange(0, s@.len() as int) =~= s@);
        all_digits_from(s, 0)
    }
}

/// Whether `s` is in decimal notation: an optional minus sign, digits,
/// optionally a point and more digits, optionally `e` or `E` and an integer
/// exponent.
pub fn is_decimal(s: &str) -> (r: bool)
    ensures
        r == is_decimal_text(s@),
{
    let n = s.unicode_len();
    let mut k: usize = 0;
    while k < n
        invariant
            k <= n,
            n == s@.len(),
            forall|j: int| 0 <= j < k ==> !is_exponent_marker(#[trigger] s@[j]),
        ensures
            k <= n,
            forall|j: int| 0 <= j < k ==> !is_exponent_marker(#[trigger] s@[j]),
            k == n || is_exponent_marker(s@[k as int]),
        decreases n - k,
    {
        let c = s.get_char(k);
        if c == 'e' || c == 'E' {
            break;
        }
        k = k + 1;
    }
    if k == n {
        let r = is_plain_decimal_str(s);
        assert(r == is_decimal_text(s@));
        return r;
    }
    let mantissa = s.substring_char(0, k);
    let exponent = s.substring_char(k + 1, n);
    let r = is_plain_decimal_str(mantissa) && is_integer_text(exponent);
    proof {
        assert(is_exponent_marker(s@[k as int]));
        if is_plain_decimal(s@) {
            lemma_plain_decimal_has_no_marker(s@, k as int);
        }
        if is_decimal_text(s@) && !is_plain_decimal(s@) {
            let w = choose|w: int|
                0 <= w < s@.len() && is_exponent_marker(#[trigger] s@[w]) && is_plain_decimal(
                    s@.subrange(0, w),
                ) && int_of_text(s@.subrange(w + 1, s@.len() as int)) is Some;
            if w > k {
                lemma_plain_decimal_has_no_marker(s@.subrange(0, w), k as int);
            }
            assert(w == k);
        }
    }
    r
}

} // verus!
