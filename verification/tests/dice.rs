use brt::random::dice::DiceCaptures;
use brt::random::{Dice, DiceError, Random};
use brt::text::parse_i32;

fn parts(count: Option<&str>, sides: Option<&str>, modifier: Option<&str>) -> DiceCaptures {
    DiceCaptures {
        count: count.map(String::from),
        sides: sides.map(String::from),
        modifier: modifier.map(String::from),
    }
}

#[test]
fn dice_min_and_max() {
    let dice = Dice::new(2, 6, 3);
    assert_eq!(dice, Dice { count: 2, sides: 6, modifier: 3 });
    assert_eq!(dice.min(), 5);
    assert_eq!(dice.max(), 15);
    assert_eq!(Dice::new(1, 20, 0).min(), 1);
    assert_eq!(Dice::new(1, 20, 0).max(), 20);
    assert_eq!(Dice::new(3, 4, -2).max(), 10);
    // the product alone does not fit 32 bits, the total does
    assert_eq!(Dice::new(46341, 46341, i32::MIN).max(), 4633);
}

#[test]
fn dice_total_adds_the_modifier() {
    assert_eq!(Dice::new(2, 6, 3).total(7), 10);
    assert_eq!(Dice::new(2, 6, -3).total(2), -1);
}

#[test]
fn dice_text() {
    assert_eq!(Dice::new(2, 6, 0).to_string(), "2d6");
    assert_eq!(Dice::new(1, 20, 5).to_string(), "1d20+5");
    assert_eq!(Dice::new(10, 100, 1234567).to_string(), "10d100+1234567");
    assert_eq!(Dice::new(0, 0, 0).to_string(), "0d0");
    assert_eq!(Dice::new(-1, i32::MIN, -7).to_string(), "-1d-2147483648+-7");
    assert_eq!(Dice::new(i32::MAX, 9, 0).to_string(), "2147483647d9");
}

#[test]
fn dice_from_str_reads_the_notation() {
    assert_eq!(Dice::from_str("2d6"), Ok(Dice::new(2, 6, 0)));
    assert_eq!(Dice::from_str("d20"), Ok(Dice::new(1, 20, 0)));
    assert_eq!(Dice::from_str("3d8+2"), Ok(Dice::new(3, 8, 2)));
    assert_eq!(Dice::from_str("3D8+2"), Ok(Dice::new(3, 8, 2)));
    assert_eq!(Dice::from_str("12d100+250"), Ok(Dice::new(12, 100, 250)));
    // The plus sign may be left out; the sides then take every digit.
    assert_eq!(Dice::from_str("1d62"), Ok(Dice::new(1, 62, 0)));
    assert_eq!(Dice::from_str("1d6+"), Ok(Dice::new(1, 6, 0)));
}

#[test]
fn dice_from_str_round_trips_the_text() {
    for dice in [Dice::new(2, 6, 0), Dice::new(1, 20, 5), Dice::new(7, 3, 11)] {
        assert_eq!(Dice::from_str(&dice.to_string()), Ok(dice));
    }
}

#[test]
fn dice_from_str_rejects_other_text() {
    for text in ["", "d", "2d", "0d6", "2d0", "2d6+0", "2d6-1", "two d six", " 2d6", "2d6 ", "2 d6", "2d6+1+1", "-2d6", "2d06"] {
        assert_eq!(Dice::from_str(text), Err(DiceError::Unparseable), "{:?}", text);
    }
}

#[test]
fn dice_from_str_numbers_too_large() {
    assert_eq!(Dice::from_str("2147483648d6"), Err(DiceError::ParseCount));
    assert_eq!(Dice::from_str("2d2147483648"), Err(DiceError::ParseSides));
    assert_eq!(Dice::from_str("2d6+99999999999"), Err(DiceError::ParseModifier));
    assert_eq!(Dice::from_str("2147483647d2147483647+2147483647"), Ok(Dice::new(i32::MAX, i32::MAX, i32::MAX)));
}

#[test]
fn dice_from_str_digits_of_other_scripts() {
    // The notation takes any decimal digit after the first; a number takes only 0 to 9.
    assert_eq!(Dice::from_str("1\u{0663}d6"), Err(DiceError::ParseCount));
    assert_eq!(Dice::from_str("2d1\u{0663}"), Err(DiceError::ParseSides));
    assert_eq!(Dice::from_str("2d6+1\u{0663}"), Err(DiceError::ParseModifier));
}

#[test]
fn dice_from_captures_each_error() {
    assert_eq!(Dice::from_captures(&parts(Some("2"), Some("6"), Some("1"))), Ok(Dice::new(2, 6, 1)));
    assert_eq!(Dice::from_captures(&parts(None, Some("6"), None)), Ok(Dice::new(1, 6, 0)));
    assert_eq!(Dice::from_captures(&parts(Some("x"), Some("6"), None)), Err(DiceError::ParseCount));
    assert_eq!(Dice::from_captures(&parts(Some("2"), None, None)), Err(DiceError::MissingSides));
    assert_eq!(Dice::from_captures(&parts(Some("2"), Some(""), None)), Err(DiceError::ParseSides));
    assert_eq!(Dice::from_captures(&parts(Some("2"), Some("6"), Some("1.5"))), Err(DiceError::ParseModifier));
    // The first part that fails decides.
    assert_eq!(Dice::from_captures(&parts(Some("x"), None, Some("y"))), Err(DiceError::ParseCount));
    assert_eq!(Dice::from_captures(&parts(None, Some("x"), Some("y"))), Err(DiceError::ParseSides));
    assert_eq!(Dice::from_captures(&parts(Some("-2"), Some("+6"), Some("007"))), Ok(Dice::new(-2, 6, 7)));
}

#[test]
fn dice_error_messages() {
    assert_eq!(DiceError::Unparseable.to_string(), "Invalid dice string");
    assert_eq!(DiceError::ParseCount.to_string(), "Error parsing dice count");
    assert_eq!(DiceError::MissingSides.to_string(), "Error missing dice sides");
    assert_eq!(DiceError::ParseSides.to_string(), "Error parsing dice sides");
    assert_eq!(DiceError::ParseModifier.message(), "Error parsing dice modifier");
}

#[test]
fn random_rolls_stay_in_range() {
    let mut random = Random::new(12345);
    let dice = Dice::new(2, 6, 3);
    let mut seen = std::collections::HashSet::new();
    for _ in 0..2000 {
        let total = random.roll(dice);
        assert!(dice.min() <= total && total <= dice.max());
        seen.insert(total);
    }
    // every total from 5 to 15 comes up
    assert_eq!(seen.len(), 11);
}

#[test]
fn random_same_seed_same_rolls() {
    let mut a = Random::new(7);
    let mut b = Random::new(7);
    let mut c = a.clone();
    let dice = Dice::new(3, 20, 0);
    for _ in 0..50 {
        let roll = a.roll(dice);
        assert_eq!(roll, b.roll(dice));
        assert_eq!(roll, dice.roll(&mut c.random));
    }
}

#[test]
fn random_roll_of_one_outcome() {
    let mut random = Random::new(1);
    assert_eq!(random.roll(Dice::new(4, 1, 10)), 14);
    assert_eq!(random.roll(Dice::new(0, 6, -2)), -2);
}

#[test]
fn parse_i32_agrees_with_std() {
    for text in [
        "0", "7", "42", "007", "+5", "-5", "-0", "+0", "2147483647", "2147483648", "-2147483648",
        "-2147483649", "99999999999999999999", "", "+", "-", "--1", "+-1", "1 ", " 1", "1_000",
        "12a", "a12", "1.0", "\u{0663}", "1\u{0663}", "0x10", "-+1",
    ] {
        assert_eq!(parse_i32(text), text.parse::<i32>().ok(), "{:?}", text);
    }
}

#[test]
fn dice_parse_through_from_str() {
    assert_eq!("4d10+3".parse::<Dice>(), Ok(Dice::new(4, 10, 3)));
    assert_eq!("four".parse::<Dice>(), Err(DiceError::Unparseable));
}

#[test]
fn random_other_seed_other_rolls() {
    let dice = Dice::new(10, 1000, 0);
    let mut a = Random::new(1);
    let mut b = Random::new(2);
    let first: Vec<i32> = (0..20).map(|_| a.roll(dice)).collect();
    let second: Vec<i32> = (0..20).map(|_| b.roll(dice)).collect();
    assert_ne!(first, second);
    let mut again = Random::new(1);
    let third: Vec<i32> = (0..20).map(|_| again.roll(dice)).collect();
    assert_eq!(first, third);
}
