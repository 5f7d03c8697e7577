use hello::guessing::Game;
use hello::guessing::GuessOutcome;
use hello::guessing::parse_u32;

#[test]
fn parses_plain_numbers() {
    assert_eq!(parse_u32(b"0"), Some(0));
    assert_eq!(parse_u32(b"42"), Some(42));
    assert_eq!(parse_u32(b"007"), Some(7));
    assert_eq!(parse_u32(b"100"), Some(100));
}

#[test]
fn parses_the_largest_value_and_rejects_the_next() {
    assert_eq!(parse_u32(b"4294967295"), Some(u32::MAX));
    assert_eq!(parse_u32(b"4294967296"), None);
    assert_eq!(parse_u32(b"99999999999999999999"), None);
}

#[test]
fn accepts_one_leading_plus_sign() {
    assert_eq!(parse_u32(b"+42"), Some(42));
    assert_eq!(parse_u32(b"+0"), Some(0));
    assert_eq!(parse_u32(b"+4294967295"), Some(u32::MAX));
    assert_eq!(parse_u32(b"+"), None);
    assert_eq!(parse_u32(b"++1"), None);
    assert_eq!(parse_u32(b"1+2"), None);
}

#[test]
fn rejects_empty_and_non_digit_input() {
    assert_eq!(parse_u32(b""), None);
    assert_eq!(parse_u32(b"12a"), None);
    assert_eq!(parse_u32(b"-5"), None);
    assert_eq!(parse_u32(b" 3"), None);
}

#[test]
fn judge_reveals_only_the_direction() {
    let g = Game::with_secret(50);
    assert_eq!(g.judge(49), GuessOutcome::TooSmall);
    assert_eq!(g.judge(51), GuessOutcome::TooBig);
    assert_eq!(g.judge(50), GuessOutcome::Win);
}

#[test]
fn judge_at_the_range_ends() {
    let low = Game::with_secret(1);
    assert_eq!(low.judge(1), GuessOutcome::Win);
    assert_eq!(low.judge(2), GuessOutcome::TooBig);
    let high = Game::with_secret(100);
    assert_eq!(high.judge(100), GuessOutcome::Win);
    assert_eq!(high.judge(99), GuessOutcome::TooSmall);
}

#[test]
fn drawn_secret_lies_in_range() {
    let g = Game::new();
    // Zero is below every possible secret, 101 above it.
    assert_eq!(g.judge(0), GuessOutcome::TooSmall);
    assert_eq!(g.judge(101), GuessOutcome::TooBig);
    // Exactly one value in range wins.
    let wins = (1..=100).filter(|v| g.judge(*v) == GuessOutcome::Win).count();
    assert_eq!(wins, 1);
}
