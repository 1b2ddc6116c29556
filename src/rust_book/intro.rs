use vstd::prelude::*;
use vstd::string::*;

use crate::big_o::random_in_range;

verus! {

/// How a guess compares with the secret number.
#[derive(PartialEq, Eq, Structural, Debug, Clone, Copy)]
pub enum GuessOutcome {
    TooSmall,
    TooBig,
    Correct,
}

/// The outcome of guessing `guess` when the secret is `secret`.
pub open spec fn outcome_of(guess: int, secret: int) -> GuessOutcome {
    if guess < secret {
        GuessOutcome::TooSmall
    } else if guess > secret {
        GuessOutcome::TooBig
    } else {
        GuessOutcome::Correct
    }
}

/// Compares a guess with the secret number; the game ends on `Correct`.
pub fn judge_guess(guess: i32, secret: i32) -> (r: GuessOutcome)
    ensures
        r == outcome_of(guess as int, secret as int),
{
    if guess < secret {
        GuessOutcome::TooSmall
    } else if guess > secret {
        GuessOutcome::TooBig
    } else {
        GuessOutcome::Correct
    }
}

/// A secret number drawn at random from `[min_number, max_number]`.
pub fn draw_secret(min_number: i32, max_number: i32) -> (r: i32)
    requires
        min_number <= max_number,
    ensures
        min_number <= r <= max_number,
{
    let v: i64 = random_in_range(min_number as i64, max_number as i64 + 1);
    v as i32
}

/// The text of `s` without leading and trailing whitespace, as `str::trim` gives it.
pub uninterp spec fn trim_of(s: Seq<char>) -> Seq<char>;

/// Relies on `str::trim`: the result depends on the characters of `s` alone.
#[verifier::external_body]
fn trim_text(s: &str) -> (r: &str)
    ensures
        r@ == trim_of(s@),
{
    s.trim()
}

/// Whether every byte of `b` is an ASCII decimal digit.
pub open spec fn all_digits(b: Seq<u8>) -> bool {
    forall|i: int| 0 <= i < b.len() ==> 48u8 <= #[trigger] b[i] <= 57u8
}

/// The number that the ASCII digits `b` spell in decimal.
pub open spec fn digits_value(b: Seq<u8>) -> nat
    decreases b.len(),
{
    if b.len() == 0 {
        0
    } else {
        digits_value(b.drop_last()) * 10 + (b.last() - 48) as nat
    }
}

/// Whether `b` starts with a minus sign.
pub open spec fn has_minus(b: Seq<u8>) -> bool {
    b.len() > 0 && b[0] == 45u8
}

/// The digits of `b`, after one leading sign if there is one.
pub open spec fn unsigned_part(b: Seq<u8>) -> Seq<u8> {
    if b.len() > 0 && (b[0] == 45u8 || b[0] == 43u8) {
        b.drop_first()
    } else {
        b
    }
}

/// The `i32` that the bytes `b` spell: an optional `+` or `-`, then one or more ASCII
/// digits, with a value that fits; `None` for any other text.
pub open spec fn parse_i32_spec(b: Seq<u8>) -> Option<i32> {
    let digits = unsigned_part(b);
    let v: int = if has_minus(b) {
        -digits_value(digits)
    } else {
        digits_value(digits) as int
    };
    if digits.len() > 0 && all_digits(digits) && i32::MIN <= v <= i32::MAX {
        Some(v as i32)
    } else {
        None
    }
}

proof fn lemma_digits_value_grows(b: Seq<u8>, d: u8)
    requires
        48u8 <= d <= 57u8,
    ensures
        digits_value(b.push(d)) >= digits_value(b),
        digits_value(b.push(d)) == digits_value(b) * 10 + (d - 48) as nat,
{
    assert(b.push(d).drop_last() =~= b);
}

/// The `i32` that `s` spells in decimal, with an optional sign; `None` when it spells
/// none or the value does not fit.
pub fn parse_i32_text(s: &str) -> (r: Option<i32>)
    ensures
        r == parse_i32_spec(s.spec_bytes()),
{
    let bytes: &[u8] = s.as_bytes();
    let n: usize = bytes.len();
    let ghost b = bytes@;
    let mut start: usize = 0;
    let negative: bool = n > 0 && bytes[0] == 45u8;
    if n > 0 && (bytes[0] == 45u8 || bytes[0] == 43u8) {
        start = 1;
    }
    assert(unsigned_part(b) =~= b.subrange(start as int, n as int));
    if start == n {
        return None;
    }
    let limit: u64 = 2147483648;
    let mut acc: u64 = 0;
    let mut over: bool = false;
    let mut i: usize = start;
    while i < n
        invariant
            b == bytes@,
            b == s.spec_bytes(),
            n == b.len(),
            start <= i <= n,
            limit == 2147483648,
            unsigned_part(b) == b.subrange(start as int, n as int),
            has_minus(b) == negative,
            all_digits(b.subrange(start as int, i as int)),
            !over ==> acc == digits_value(b.subrange(start as int, i as int)) && acc <= limit,
            over ==> digits_value(b.subrange(start as int, i as int)) > limit,
        decreases n - i,
    {
        let c: u8 = bytes[i];
        if c < 48u8 || c > 57u8 {
            assert(unsigned_part(b)[i - start] == c);
            assert(!all_digits(unsigned_part(b)));
            return None;
        }
        proof {
            lemma_digits_value_grows(b.subrange(start as int, i as int), c);
            assert(b.subrange(start as int, i as int).push(c) =~= b.subrange(start as int, i + 1));
        }
        if !over {
            let next: u64 = acc * 10 + (c - 48u8) as u64;
            if next > limit {
                over = true;
            } else {
                acc = next;
            }
        }
        i = i + 1;
    }
    assert(b.subrange(start as int, n as int) == unsigned_part(b));
    if over {
        return None;
    }
    if negative {
        let v: i64 = -(acc as i64);
        Some(v as i32)
    } else if acc <= 2147483647 {
        Some(acc as i32)
    } else {
        None
    }
}

/// The guess that a line of input spells: its text without surrounding whitespace,
/// read as an `i32`.
pub fn parse_guess(line: &str) -> (r: Option<i32>)
    ensures
        r == parse_i32_spec(vstd::utf8::encode_utf8(trim_of(line@))),
{
    let t: &str = trim_text(line);
    parse_i32_text(t)
}

} // verus!
