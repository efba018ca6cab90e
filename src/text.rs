//! Decimal numbers in text: reading unsigned integers and writing them out.

use vstd::prelude::*;
use vstd::string::*;
use crate::tag::{hex_char, hex_digit_str};

verus! {

pub open spec fn is_digit(c: char) -> bool {
    '0' <= c <= '9'
}

pub open spec fn digit_value(c: char) -> nat {
    (c as u32 - '0' as u32) as nat
}

/// The number that a string of decimal digits stands for.
pub open spec fn digits_value(s: Seq<char>) -> nat
    decreases s.len(),
{
    if s.len() == 0 {
        0
    } else {
        digits_value(s.drop_last()) * 10 + digit_value(s.last())
    }
}

pub open spec fn all_digits(s: Seq<char>) -> bool {
    forall|i: int| 0 <= i < s.len() ==> is_digit(#[trigger] s[i])
}

/// The digits of an unsigned integer as `str::parse` reads them: an optional
/// `+`, then at least one decimal digit and nothing else.
pub open spec fn unsigned_digits(s: Seq<char>) -> Option<Seq<char>> {
    let d = if s.len() > 0 && s[0] == '+' {
        s.drop_first()
    } else {
        s
    };
    if d.len() > 0 && all_digits(d) {
        Some(d)
    } else {
        None
    }
}

/// The value of an unsigned integer in text, if the text is one.
pub open spec fn unsigned_value(s: Seq<char>) -> Option<nat> {
    match unsigned_digits(s) {
        Some(d) => Some(digits_value(d)),
        None => None,
    }
}

proof fn lemma_digits_value_step(s: Seq<char>, i: int)
    requires
        0 <= i < s.len(),
    ensures
        digits_value(s.take(i + 1)) == digits_value(s.take(i)) * 10 + digit_value(s[i]),
{
    assert(s.take(i + 1).drop_last() =~= s.take(i));
}

/// Reads the characters from `start` as decimal digits, giving up once the
/// value passes `limit`. `Ok(Some(v))`: all digits, value `v <= limit`;
/// `Ok(None)`: all digits, value above `limit`; `Err(())`: not all digits, or none.
pub fn read_digits(s: &str, start: usize, limit: u64) -> (r: Result<Option<u64>, ()>)
    requires
        start <= s@.len(),
    ensures
        ({
            let d = s@.skip(start as int);
            match r {
                Ok(Some(v)) => d.len() > 0 && all_digits(d) && v == digits_value(d) && v <= limit,
                Ok(None) => d.len() > 0 && all_digits(d) && digits_value(d) > limit,
                Err(()) => !(d.len() > 0 && all_digits(d)),
            }
        }),
{
    let n = s.unicode_len();
    let ghost d = s@.skip(start as int);
    if start == n {
        return Err(());
    }
    let mut i: usize = start;
    let mut v: u64 = 0;
    let mut over = false;
    while i < n
        invariant
            start <= i <= n,
            n == s@.len(),
            d == s@.skip(start as int),
            all_digits(d.take(i - start)),
            !over ==> v == digits_value(d.take(i - start)) && v <= limit,
            over ==> digits_value(d.take(i - start)) > limit,
        decreases n - i,
    {
        let c = s.get_char(i);
        if !('0' <= c && c <= '9') {
            assert(d[i - start] == c);
            return Err(());
        }
        proof {
            lemma_digits_value_step(d, i - start);
            assert(d.take(i - start + 1) =~= d.take(i - start).push(c));
        }
        let dv = (c as u32 - '0' as u32) as u64;
        if !over {
            if dv > limit || v > (limit - dv) / 10 {
                over = true;
                assert(v * 10 + dv > limit) by (nonlinear_arith)
                    requires
                        dv > limit || v > (limit - dv) / 10,
                        dv <= limit ==> (limit - dv) / 10 * 10 + 10 > limit - dv,
                ;
            } else {
                assert(v * 10 + dv <= limit) by (nonlinear_arith)
                    requires
                        dv <= limit,
                        v <= (limit - dv) / 10,
                        (limit - dv) / 10 * 10 <= limit - dv,
                ;
                v = v * 10 + dv;
            }
        } else {
            assert(digits_value(d.take(i - start)) * 10 + dv > limit) by (nonlinear_arith)
                requires
                    digits_value(d.take(i - start)) > limit,
            ;
        }
        i = i + 1;
    }
    assert(d.take(n - start) =~= d);
    if over {
        Ok(None)
    } else {
        Ok(Some(v))
    }
}

/// Decimal text of a number, most significant digit first.
pub open spec fn decimal_text(n: nat) -> Seq<char>
    decreases n,
{
    if n < 10 {
        seq![hex_char(n as int)]
    } else {
        decimal_text(n / 10) + seq![hex_char((n % 10) as int)]
    }
}

/// Writes `n` in decimal.
pub fn decimal_string(n: u64) -> (r: String)
    ensures
        r@ == decimal_text(n as nat),
    decreases n,
{
    if n < 10 {
        String::from_str(hex_digit_str(n as u8))
    } else {
        let mut r = decimal_string(n / 10);
        r.append(hex_digit_str((n % 10) as u8));
        r
    }
}

} // verus!
