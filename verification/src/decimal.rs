//! Decimal timestamps: an exact specification of how a `u64` is written as
//! a decimal string and how such a string is read back, executable code for
//! both directions, and the round-trip law between them.

use vstd::prelude::*;
use vstd::string::*;

verus! {

/// Holds when `c` is a decimal digit.
pub open spec fn is_dec_digit(c: char) -> bool {
    ('0' as u32) <= (c as u32) <= ('9' as u32)
}

/// The value of a decimal digit.
pub open spec fn dec_val(c: char) -> nat
    recommends
        is_dec_digit(c),
{
    (((c as u32) - ('0' as u32)) as u8 % 10) as nat
}

/// The number written by a digit sequence, most significant digit first.
pub open spec fn digits_val(s: Seq<char>) -> nat
    decreases s.len(),
{
    if s.len() == 0 {
        0
    } else {
        digits_val(s.drop_last()) * 10 + dec_val(s.last())
    }
}

/// The digit sequence a timestamp string is read from: a single leading
/// `+` is accepted and skipped, as `str::parse::<u64>` does.
pub open spec fn unsigned_body(s: Seq<char>) -> Seq<char> {
    if s.len() > 0 && s[0] == '+' {
        s.drop_first()
    } else {
        s
    }
}

/// Holds when `s` is a well-formed decimal `u64`: after an optional
/// leading `+`, at least one digit, only digits, and a value in range.
pub open spec fn is_dec_u64(s: Seq<char>) -> bool {
    let d = unsigned_body(s);
    d.len() > 0 && (forall|i: int| 0 <= i < d.len() ==> is_dec_digit(#[trigger] d[i]))
        && digits_val(d) <= u64::MAX
}

/// The value of a well-formed decimal `u64` string.
pub open spec fn dec_u64_val(s: Seq<char>) -> nat {
    digits_val(unsigned_body(s))
}

/// A digit prefix never writes a larger number than the whole sequence.
proof fn lemma_digits_val_prefix_le(s: Seq<char>, n: int)
    requires
        0 <= n <= s.len(),
    ensures
        digits_val(s.take(n)) <= digits_val(s),
    decreases s.len() - n,
{
    if n < s.len() {
        lemma_digits_val_prefix_le(s, n + 1);
        assert(s.take(n + 1).drop_last() =~= s.take(n));
        assert(digits_val(s.take(n)) <= digits_val(s.take(n + 1)));
    } else {
        assert(s.take(n) =~= s);
    }
}

/// Reads a decimal `u64`, accepting exactly what `str::parse::<u64>`
/// accepts: an optional leading `+`, then one or more digits, value in
/// range.
pub fn parse_u64(s: &str) -> (r: Option<u64>)
    ensures
        r is Some <==> is_dec_u64(s@),
        r matches Some(v) ==> v == dec_u64_val(s@),
{
    let len = s.unicode_len();
    let start: usize = if len > 0 && s.get_char(0) == '+' {
        1
    } else {
        0
    };
    proof {
        assert(s@.skip(start as int) =~= unsigned_body(s@));
    }
    if len == start {
        return None;
    }
    let ghost d = unsigned_body(s@);
    let mut acc: u64 = 0;
    let mut i: usize = start;
    while i < len
        invariant
            len == s@.len(),
            start <= i <= len,
            start <= 1,
            d == unsigned_body(s@),
            d == s@.skip(start as int),
            acc == digits_val(d.take(i - start)),
            forall|j: int| 0 <= j < i - start ==> is_dec_digit(#[trigger] d[j]),
        decreases len - i,
    {
        let c = s.get_char(i);
        proof {
            assert(d[i - start] == c);
        }
        let cv = c as u32;
        if cv < ('0' as u32) || cv > ('9' as u32) {
            proof {
                assert(!is_dec_digit(d[i - start]));
            }
            return None;
        }
        let digit: u64 = (cv - ('0' as u32)) as u64;
        proof {
            assert(d[i - start] == c);
            assert(is_dec_digit(c));
            assert(dec_val(c) == digit);
            assert(d.take(i - start + 1).drop_last() =~= d.take(i - start));
            assert(digits_val(d.take(i - start + 1)) == acc * 10 + digit);
        }
        let shifted = match acc.checked_mul(10) {
            Some(x) => x,
            None => {
                proof {
                    lemma_digits_val_prefix_le(d, i - start + 1);
                }
                return None;
            },
        };
        acc = match shifted.checked_add(digit) {
            Some(x) => x,
            None => {
                proof {
                    lemma_digits_val_prefix_le(d, i - start + 1);
                }
                return None;
            },
        };
        i = i + 1;
    }
    proof {
        assert(d.take(len - start) =~= d);
    }
    Some(acc)
}

/// The decimal digit sequence of `n`, most significant digit first.
pub open spec fn decimal_of(n: nat) -> Seq<char>
    decreases n,
{
    if n < 10 {
        seq![digit_char(n)]
    } else {
        decimal_of(n / 10).push(digit_char(n % 10))
    }
}

/// The digit character for a value below 10.
pub open spec fn digit_char(n: nat) -> char
    recommends
        n < 10,
{
    (('0' as u32) + (n % 10) as u32) as char
}

/// The single-digit string for a value below 10.
fn digit_str(n: u64) -> (r: &'static str)
    requires
        n < 10,
    ensures
        r@ =~= seq![digit_char(n as nat)],
{
    proof {
        reveal_strlit("0");
        reveal_strlit("1");
        reveal_strlit("2");
        reveal_strlit("3");
        reveal_strlit("4");
        reveal_strlit("5");
        reveal_strlit("6");
        reveal_strlit("7");
        reveal_strlit("8");
        reveal_strlit("9");
    }
    if n == 0 {
        "0"
    } else if n == 1 {
        "1"
    } else if n == 2 {
        "2"
    } else if n == 3 {
        "3"
    } else if n == 4 {
        "4"
    } else if n == 5 {
        "5"
    } else if n == 6 {
        "6"
    } else if n == 7 {
        "7"
    } else if n == 8 {
        "8"
    } else {
        "9"
    }
}

/// Writes `n` in decimal, most significant digit first.
pub fn u64_to_dec_string(n: u64) -> (r: String)
    ensures
        r@ == decimal_of(n as nat),
    decreases n,
{
    if n < 10 {
        digit_str(n).to_owned()
    } else {
        let head = u64_to_dec_string(n / 10);
        let r = head.concat(digit_str(n % 10));
        proof {
            assert(r@ =~= decimal_of(n as nat));
        }
        r
    }
}

/// The decimal writing of any `u64` reads back as the same value:
/// it is made of digits, carries no sign, and its value is `n`.
pub proof fn lemma_decimal_round_trip(n: u64)
    ensures
        is_dec_u64(decimal_of(n as nat)),
        dec_u64_val(decimal_of(n as nat)) == n,
    decreases n,
{
    lemma_decimal_digits(n as nat);
    let s = decimal_of(n as nat);
    assert(s[0] != '+');
    assert(unsigned_body(s) == s);
}

/// `decimal_of` yields only digits and writes back the same value.
proof fn lemma_decimal_digits(n: nat)
    ensures
        decimal_of(n).len() > 0,
        forall|i: int| 0 <= i < decimal_of(n).len() ==> is_dec_digit(#[trigger] decimal_of(n)[i]),
        digits_val(decimal_of(n)) == n,
        decimal_of(n)[0] != '+',
    decreases n,
{
    if n < 10 {
        assert(decimal_of(n) =~= seq![digit_char(n)]);
        assert(decimal_of(n).last() == digit_char(n));
        assert(dec_val(digit_char(n)) == n);
        assert(decimal_of(n).drop_last() =~= Seq::<char>::empty());
        assert(digits_val(Seq::<char>::empty()) == 0);
        assert(digits_val(decimal_of(n)) == digits_val(decimal_of(n).drop_last()) * 10 + dec_val(
            decimal_of(n).last(),
        ));
    } else {
        lemma_decimal_digits(n / 10);
        assert(decimal_of(n).drop_last() =~= decimal_of(n / 10));
        assert(decimal_of(n).last() == digit_char(n % 10));
        assert(dec_val(digit_char(n % 10)) == n % 10);
        assert(digits_val(decimal_of(n)) == (n / 10) * 10 + n % 10);
        assert((n / 10) * 10 + n % 10 == n) by (nonlinear_arith);
    }
}

} // verus!
