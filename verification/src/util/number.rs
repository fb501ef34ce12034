use vstd::prelude::*;
use crate::util::text::chars_of;
use crate::util::text::string_from_chars;

verus! {

/// An ASCII decimal digit.
pub open spec fn is_digit(c: char) -> bool {
    48 <= (c as u32) <= 57
}

pub open spec fn digit_value(c: char) -> int {
    (c as u32) - 48
}

pub open spec fn all_digits(s: Seq<char>) -> bool {
    forall|i: int| 0 <= i < s.len() ==> is_digit(#[trigger] s[i])
}

/// The number that a run of decimal digits spells.
pub open spec fn digits_value(s: Seq<char>) -> int
    decreases s.len(),
{
    if s.len() == 0 {
        0
    } else {
        digits_value(s.drop_last()) * 10 + digit_value(s.last())
    }
}

/// What an integer `FromStr` reads from `s`: an optional `+` or `-`, then at least
/// one ASCII digit and nothing else; `None` for anything else.
pub open spec fn parse_int_spec(s: Seq<char>) -> Option<int> {
    let signed = s.len() > 0 && (s[0] == '-' || s[0] == '+');
    let body = if signed {
        s.drop_first()
    } else {
        s
    };
    if body.len() == 0 || !all_digits(body) {
        None
    } else if s[0] == '-' {
        Some(-digits_value(body))
    } else {
        Some(digits_value(body))
    }
}

/// `str::parse::<i64>`: the value when it is well formed and fits.
pub open spec fn parse_i64_spec(s: Seq<char>) -> Option<i64> {
    match parse_int_spec(s) {
        Some(v) => if i64::MIN <= v <= i64::MAX {
            Some(v as i64)
        } else {
            None
        },
        None => None,
    }
}

/// `str::parse::<i32>`: the value when it is well formed and fits.
pub open spec fn parse_i32_spec(s: Seq<char>) -> Option<i32> {
    match parse_int_spec(s) {
        Some(v) => if i32::MIN <= v <= i32::MAX {
            Some(v as i32)
        } else {
            None
        },
        None => None,
    }
}

proof fn lemma_digits_value_nonneg(s: Seq<char>)
    requires
        all_digits(s),
    ensures
        digits_value(s) >= 0,
    decreases s.len(),
{
    if s.len() > 0 {
        lemma_digits_value_nonneg(s.drop_last());
        assert(is_digit(s[s.len() - 1]));
    }
}

proof fn lemma_digits_value_prefix(s: Seq<char>, k: int)
    requires
        all_digits(s),
        0 <= k <= s.len(),
    ensures
        0 <= digits_value(s.take(k)) <= digits_value(s),
    decreases s.len(),
{
    if k == s.len() {
        assert(s.take(k) =~= s);
        lemma_digits_value_nonneg(s);
    } else {
        lemma_digits_value_prefix(s.drop_last(), k);
        assert(s.drop_last().take(k) =~= s.take(k));
        lemma_digits_value_nonneg(s.drop_last());
        assert(is_digit(s[s.len() - 1]));
    }
}

/// Reads the digits of `v` from `start` on; `None` when one is not a digit or when the
/// value passes `2^63`.
fn read_magnitude(v: &Vec<char>, start: usize) -> (r: Option<u64>)
    requires
        start <= v@.len(),
    ensures
        ({
            let body = v@.skip(start as int);
            match r {
                Some(m) => all_digits(body) && m == digits_value(body) && m <= 0x8000_0000_0000_0000,
                None => !all_digits(body) || digits_value(body) > 0x8000_0000_0000_0000,
            }
        }),
{
    let ghost body = v@.skip(start as int);
    let mut acc: u64 = 0;
    let mut i: usize = start;
    while i < v.len()
        invariant
            start <= i <= v@.len(),
            body == v@.skip(start as int),
            all_digits(body.take(i - start)),
            acc == digits_value(body.take(i - start)),
            acc <= 0x8000_0000_0000_0000,
        decreases v@.len() - i,
    {
        let c = v[i];
        let u = c as u32;
        if u < 48 || u > 57 {
            assert(body[i - start] == c);
            return None;
        }
        let d = (u - 48) as u64;
        let next = (acc as u128) * 10 + (d as u128);
        proof {
            let t = body.take(i - start + 1);
            assert(t.drop_last() =~= body.take(i - start));
            assert(t.last() == c);
            assert(all_digits(t));
        }
        if next > 0x8000_0000_0000_0000u128 {
            proof {
                let t = body.take(i - start + 1);
                if all_digits(body) {
                    lemma_digits_value_prefix(body, i - start + 1);
                }
            }
            return None;
        }
        acc = next as u64;
        i = i + 1;
    }
    assert(body.take(i - start) =~= body);
    Some(acc)
}

fn parse_signed(s: &str) -> (r: Option<(bool, u64)>)
    ensures
        match r {
            Some((neg, m)) => parse_int_spec(s@) == Some(if neg { -(m as int) } else { m as int }),
            None => parse_int_spec(s@) is None || parse_int_spec(s@).unwrap() < -0x8000_0000_0000_0000
                || parse_int_spec(s@).unwrap() > 0x8000_0000_0000_0000,
        },
{
    let v = chars_of(s);
    if v.len() == 0 {
        return None;
    }
    let signed = v[0] == '-' || v[0] == '+';
    let start: usize = if signed { 1 } else { 0 };
    if start >= v.len() {
        return None;
    }
    let neg = v[0] == '-';
    proof {
        if signed {
            assert(v@.skip(1) =~= v@.drop_first());
        } else {
            assert(v@.skip(0) =~= v@);
        }
    }
    match read_magnitude(&v, start) {
        Some(m) => Some((neg, m)),
        None => None,
    }
}

/// `s.parse::<i64>().ok()`.
pub fn parse_i64(s: &str) -> (r: Option<i64>)
    ensures
        r == parse_i64_spec(s@),
{
    match parse_signed(s) {
        Some((neg, m)) => {
            if neg {
                if m <= 0x8000_0000_0000_0000 {
                    if m == 0x8000_0000_0000_0000 {
                        Some(i64::MIN)
                    } else {
                        Some(-(m as i64))
                    }
                } else {
                    None
                }
            } else if m <= 0x7fff_ffff_ffff_ffff {
                Some(m as i64)
            } else {
                None
            }
        },
        None => None,
    }
}

/// `s.parse::<i32>().ok()`.
pub fn parse_i32(s: &str) -> (r: Option<i32>)
    ensures
        r == parse_i32_spec(s@),
{
    match parse_i64(s) {
        Some(v) => if -0x8000_0000 <= v && v <= 0x7fff_ffff {
            Some(v as i32)
        } else {
            None
        },
        None => None,
    }
}

pub open spec fn digit_char(d: nat) -> char {
    (d + 48) as char
}

/// The decimal digits of `n`, most significant first, with no leading zero.
pub open spec fn nat_decimal(n: nat) -> Seq<char>
    decreases n,
{
    if n < 10 {
        seq![digit_char(n)]
    } else {
        nat_decimal(n / 10).push(digit_char(n % 10))
    }
}

/// The decimal text of `n`, as `Display` writes it for integers.
pub open spec fn int_decimal(n: int) -> Seq<char> {
    if n < 0 {
        seq!['-'] + nat_decimal((-n) as nat)
    } else {
        nat_decimal(n as nat)
    }
}

fn u64_digits(m: u64) -> (out: Vec<char>)
    ensures
        out@ == nat_decimal(m as nat),
    decreases m,
{
    if m < 10 {
        let mut out: Vec<char> = Vec::new();
        out.push(digit(m as u32));
        out
    } else {
        let mut out = u64_digits(m / 10);
        out.push(digit((m % 10) as u32));
        out
    }
}

fn digit(d: u32) -> (c: char)
    requires
        d < 10,
    ensures
        c == digit_char(d as nat),
{
    match d {
        0 => '0',
        1 => '1',
        2 => '2',
        3 => '3',
        4 => '4',
        5 => '5',
        6 => '6',
        7 => '7',
        8 => '8',
        _ => '9',
    }
}

/// The decimal text of `n` (`n.to_string()`).
pub fn i32_to_string(n: i32) -> (out: String)
    ensures
        out@ == int_decimal(n as int),
{
    let wide = n as i64;
    if wide < 0 {
        let digits = u64_digits((-wide) as u64);
        let mut v: Vec<char> = Vec::new();
        v.push('-');
        let mut all = v;
        let mut rest = digits;
        all.append(&mut rest);
        assert(all@ =~= seq!['-'] + nat_decimal((-(n as int)) as nat));
        string_from_chars(all.as_slice())
    } else {
        let digits = u64_digits(wide as u64);
        string_from_chars(digits.as_slice())
    }
}

proof fn lemma_nat_decimal_digits(n: nat)
    ensures
        all_digits(nat_decimal(n)),
        nat_decimal(n).len() > 0,
        digits_value(nat_decimal(n)) == n,
    decreases n,
{
    if n < 10 {
        let s = nat_decimal(n);
        assert(s.drop_last() =~= Seq::<char>::empty());
        assert(((n + 48) as char) as u32 == n + 48);
        assert(s.last() == digit_char(n));
        assert(digit_value(s.last()) == n);
        assert(digits_value(s.drop_last()) == 0);
    } else {
        assert((((n % 10) + 48) as char) as u32 == (n % 10) + 48);
        lemma_nat_decimal_digits(n / 10);
        let s = nat_decimal(n);
        assert(s.drop_last() =~= nat_decimal(n / 10));
        assert(s.last() == digit_char(n % 10));
        assert(digit_value(s.last()) == n % 10);
        assert(digits_value(s) == digits_value(s.drop_last()) * 10 + digit_value(s.last()));
        assert forall|i: int| 0 <= i < s.len() implies is_digit(#[trigger] s[i]) by {
            if i < s.len() - 1 {
                assert(s[i] == nat_decimal(n / 10)[i]);
            }
        }
    }
}

/// Reading back the decimal text of an `i32` gives the same number.
pub proof fn lemma_parse_i32_of_decimal(n: i32)
    ensures
        parse_i32_spec(int_decimal(n as int)) == Some(n),
{
    if n < 0 {
        let m = (-(n as int)) as nat;
        lemma_nat_decimal_digits(m);
        let s = int_decimal(n as int);
        assert(s.drop_first() =~= nat_decimal(m));
    } else {
        lemma_nat_decimal_digits(n as nat);
        let s = nat_decimal(n as nat);
        assert(is_digit(s[0]));
    }
}

/// Reading back the decimal text of an `i64` gives the same number.
pub proof fn lemma_parse_i64_of_decimal(n: i64)
    ensures
        parse_i64_spec(int_decimal(n as int)) == Some(n),
{
    if n < 0 {
        let m = (-(n as int)) as nat;
        lemma_nat_decimal_digits(m);
        let s = int_decimal(n as int);
        assert(s.drop_first() =~= nat_decimal(m));
    } else {
        lemma_nat_decimal_digits(n as nat);
        let s = nat_decimal(n as nat);
        assert(is_digit(s[0]));
    }
}

} // verus!
