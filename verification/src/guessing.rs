//! The guessing game's decision logic: parsing a typed guess and judging it
//! against the secret. The read-guess-print loop around it does the I/O and
//! calls in here for every decision.

use vstd::prelude::*;
use vstd::slice::slice_subrange;

verus! {

/// Whether `b` is the code of an ASCII decimal digit.
pub open spec fn is_ascii_digit(b: u8) -> bool {
    0x30 <= b <= 0x39
}

/// Every byte of `s` is an ASCII decimal digit.
pub open spec fn all_ascii_digits(s: Seq<u8>) -> bool {
    forall|i: int| 0 <= i < s.len() ==> is_ascii_digit(s[i])
}

/// The numeric value of one digit byte (and zero for any other byte, so the
/// function is total; callers only apply it to digits).
pub open spec fn digit_val(b: u8) -> nat {
    if is_ascii_digit(b) {
        (b - 0x30) as nat
    } else {
        0
    }
}

/// The number denoted by a string of decimal digit bytes, most significant
/// first.
pub open spec fn decimal_value(s: Seq<u8>) -> nat
    decreases s.len(),
{
    if s.len() == 0 {
        0
    } else {
        decimal_value(s.drop_last()) * 10 + digit_val(s.last())
    }
}

/// A longer digit string never denotes a smaller number: the value of a
/// prefix is at most the value of the whole string.
proof fn lemma_decimal_value_take_le(s: Seq<u8>, i: int)
    requires
        0 <= i <= s.len(),
    ensures
        decimal_value(s.take(i)) <= decimal_value(s),
    decreases s.len() - i,
{
    if i == s.len() {
        assert(s.take(i) =~= s);
    } else {
        assert(s.take(i + 1).drop_last() =~= s.take(i));
        assert(decimal_value(s.take(i + 1)) == decimal_value(s.take(i)) * 10 + digit_val(
            s.take(i + 1).last(),
        ));
        lemma_decimal_value_take_le(s, i + 1);
    }
}

/// The digit part of a number literal: everything after an optional
/// leading plus sign.
pub open spec fn digits_part(s: Seq<u8>) -> Seq<u8> {
    if s.len() > 0 && s[0] == 0x2Bu8 {
        s.drop_first()
    } else {
        s
    }
}

/// Parses a non-empty, all-digit byte string as a decimal number, exactly
/// when its value fits the result type; anything else — empty input, a
/// non-digit byte, or a value past the maximum — is rejected.
fn parse_digits(digits: &[u8]) -> (r: Option<u32>)
    ensures
        r is Some <==> digits@.len() > 0 && all_ascii_digits(digits@) && decimal_value(digits@)
            <= u32::MAX,
        r matches Some(v) ==> v == decimal_value(digits@),
{
    if digits.len() == 0 {
        return None;
    }
    let mut acc: u32 = 0;
    let mut i: usize = 0;
    while i < digits.len()
        invariant
            i <= digits@.len(),
            all_ascii_digits(digits@.take(i as int)),
            acc == decimal_value(digits@.take(i as int)),
        decreases digits@.len() - i,
    {
        let b = digits[i];
        if b < 0x30 || b > 0x39 {
            assert(!is_ascii_digit(digits@[i as int]));
            return None;
        }
        let d: u32 = (b - 0x30) as u32;
        proof {
            assert(digits@.take(i + 1).drop_last() =~= digits@.take(i as int));
            assert(digits@.take(i + 1).last() == digits@[i as int]);
        }
        if acc > 0x19999999 || (acc == 0x19999999 && d > 5) {
            proof {
                assert(decimal_value(digits@.take(i + 1)) > u32::MAX);
                lemma_decimal_value_take_le(digits@, i + 1);
            }
            return None;
        }
        acc = acc * 10 + d;
        i += 1;
    }
    proof {
        assert(digits@.take(digits@.len() as int) =~= digits@);
    }
    Some(acc)
}

/// Parses a decimal number literal — an optional leading plus sign
/// followed by digits — exactly when the denoted value fits the result
/// type; an empty digit part, a non-digit byte, or a value past the
/// maximum is rejected.
pub fn parse_u32(input: &[u8]) -> (r: Option<u32>)
    ensures
        r is Some <==> digits_part(input@).len() > 0 && all_ascii_digits(digits_part(input@))
            && decimal_value(digits_part(input@)) <= u32::MAX,
        r matches Some(v) ==> v == decimal_value(digits_part(input@)),
{
    if input.len() > 0 && input[0] == 0x2B {
        let rest = slice_subrange(input, 1, input.len());
        proof {
            assert(rest@ =~= digits_part(input@));
        }
        parse_digits(rest)
    } else {
        parse_digits(input)
    }
}

/// The three possible verdicts on a guess.
#[derive(Debug, PartialEq, Eq, Structural, Clone, Copy)]
pub enum GuessOutcome {
    TooSmall,
    TooBig,
    Win,
}

/// One round's secret, drawn once at the start and then only compared
/// against.
pub struct Game {
    secret: u32,
}

impl Game {
    /// The hidden number.
    pub closed spec fn secret_value(self) -> u32 {
        self.secret
    }

    /// The secret stays within the announced range.
    pub open spec fn inv(self) -> bool {
        1 <= self.secret_value() <= 100
    }

    /// Relies on `rand::random_range`: a uniform draw from the given range,
    /// which is non-empty here, so the result lies within it.
    #[verifier::external_body]
    fn draw_secret() -> (s: u32)
        ensures
            1 <= s <= 100,
    {
        rand::random_range(1..101)
    }

    /// Starts a round with a freshly drawn secret between one and a hundred.
    pub fn new() -> (g: Game)
        ensures
            g.inv(),
    {
        Game { secret: Self::draw_secret() }
    }

    /// Starts a round with a chosen in-range secret.
    pub fn with_secret(secret: u32) -> (g: Game)
        requires
            1 <= secret <= 100,
        ensures
            g.inv(),
            g.secret_value() == secret,
    {
        Game { secret }
    }

    /// Compares a guess against the secret, revealing only the direction.
    pub fn judge(&self, guess: u32) -> (o: GuessOutcome)
        ensures
            o == GuessOutcome::TooSmall <==> guess < self.secret_value(),
            o == GuessOutcome::TooBig <==> guess > self.secret_value(),
            o == GuessOutcome::Win <==> guess == self.secret_value(),
    {
        if guess < self.secret {
            GuessOutcome::TooSmall
        } else if guess > self.secret {
            GuessOutcome::TooBig
        } else {
            GuessOutcome::Win
        }
    }
}

} // verus!
