//! Dice in the notation `2d6+3`: how many, how many sides, and what is added.
use vstd::prelude::*;
use rand_pcg::Pcg64;
use crate::random::dice_error::DiceError;
use crate::random::random::gen_range_inclusive;
use crate::text::{decimal, parse_i32, push_decimal, spec_parse_i32};

verus! {

/// The notation of dice: an optional count, the letter `d`, the number of
/// sides, and an optional modifier after an optional `+`. The numbers do not
/// begin with a zero; case is ignored.
pub const DICE_PATTERN: &'static str =
    "(?xi)\n^\n(?P<count> [1-9]\\d*)?\nd\n(?P<sides> [1-9]\\d*)\n\\+?\n(?P<modifier> [1-9]\\d*)?\n$";

/// The parts of a text that matched the notation of dice.
pub struct DiceCaptures {
    pub count: Option<String>,
    pub sides: Option<String>,
    pub modifier: Option<String>,
}

/// The text of an optional part.
pub open spec fn part_view(part: Option<String>) -> Option<Seq<char>> {
    match part {
        Some(text) => Some(text@),
        None => None,
    }
}

impl View for DiceCaptures {
    type V = (Option<Seq<char>>, Option<Seq<char>>, Option<Seq<char>>);

    open spec fn view(&self) -> Self::V {
        (part_view(self.count), part_view(self.sides), part_view(self.modifier))
    }
}

/// The texts of an optional match.
pub open spec fn captures_view(captures: Option<DiceCaptures>) -> Option<
    (Option<Seq<char>>, Option<Seq<char>>, Option<Seq<char>>),
> {
    match captures {
        Some(parts) => Some(parts@),
        None => None,
    }
}

/// What the first match of the regular expression `pattern` in `text` holds
/// in its groups named `first`, `second` and `third`, as the `regex` crate
/// finds it; none where the pattern does not compile or does not match.
pub uninterp spec fn regex_first_captures(
    pattern: Seq<char>,
    text: Seq<char>,
    first: Seq<char>,
    second: Seq<char>,
    third: Seq<char>,
) -> Option<(Option<Seq<char>>, Option<Seq<char>>, Option<Seq<char>>)>;

/// Compiles `pattern` with `Regex::new` of the `regex` crate, takes the first
/// match in `text` from `Regex::captures_iter`, and reads the three named
/// groups with `Captures::name` and `Match::as_str`. The result is named, not
/// described: it is whatever the crate finds for this pattern and this text.
#[verifier::external_body]
fn first_captures(pattern: &str, text: &str, first: &str, second: &str, third: &str) -> (captures:
    Option<DiceCaptures>)
    ensures
        captures_view(captures) == regex_first_captures(
            pattern@,
            text@,
            first@,
            second@,
            third@,
        ),
{
    let regex = regex::Regex::new(pattern).ok()?;
    let found = regex.captures_iter(text).next()?;
    Some(
        DiceCaptures {
            count: found.name(first).map(|m| m.as_str().to_string()),
            sides: found.name(second).map(|m| m.as_str().to_string()),
            modifier: found.name(third).map(|m| m.as_str().to_string()),
        },
    )
}

/// A number of dice of equal sides, and what is added to their sum.
#[derive(Debug, Clone, Copy, PartialEq, Eq, Structural)]
pub struct Dice {
    pub count: i32,
    pub sides: i32,
    pub modifier: i32,
}

/// The dice that the parts of a match write: a count of one and a modifier
/// of zero where the part is missing, and an error for the first part that
/// is no number of 32 bits.
pub open spec fn dice_from_parts(
    parts: (Option<Seq<char>>, Option<Seq<char>>, Option<Seq<char>>),
) -> Result<Dice, DiceError> {
    let count = match parts.0 {
        Some(text) => spec_parse_i32(text),
        None => Some(1i32),
    };
    let sides = match parts.1 {
        Some(text) => spec_parse_i32(text),
        None => None,
    };
    let modifier = match parts.2 {
        Some(text) => spec_parse_i32(text),
        None => Some(0i32),
    };
    if count.is_none() {
        Err(DiceError::ParseCount)
    } else if parts.1.is_none() {
        Err(DiceError::MissingSides)
    } else if sides.is_none() {
        Err(DiceError::ParseSides)
    } else if modifier.is_none() {
        Err(DiceError::ParseModifier)
    } else {
        Ok(Dice { count: count.unwrap(), sides: sides.unwrap(), modifier: modifier.unwrap() })
    }
}

/// The dice that a text writes, given what matched the notation in it.
pub open spec fn dice_from_match(
    found: Option<(Option<Seq<char>>, Option<Seq<char>>, Option<Seq<char>>)>,
) -> Result<Dice, DiceError> {
    match found {
        Some(parts) => dice_from_parts(parts),
        None => Err(DiceError::Unparseable),
    }
}

impl Dice {
    /// `count` dice of `sides` sides each, with `modifier` added.
    pub fn new(count: i32, sides: i32, modifier: i32) -> (dice: Self)
        ensures
            dice == (Dice { count, sides, modifier }),
    {
        Self { count, sides, modifier }
    }

    /// The least total that the dice can show.
    pub open spec fn spec_min(&self) -> int {
        self.count + self.modifier
    }

    /// The greatest total that the dice can show.
    pub open spec fn spec_max(&self) -> int {
        self.count * self.sides + self.modifier
    }

    /// The dice can be rolled: there is a number between the count and the
    /// count times the sides, and every total fits the machine integers.
    pub open spec fn rollable(&self) -> bool {
        &&& self.count <= self.count * self.sides <= i32::MAX
        &&& i32::MIN <= self.spec_min()
        &&& self.spec_max() <= i32::MAX
    }

    /// The total for what the dice showed: the modifier added to `roll`.
    pub fn total(&self, roll: i32) -> (total: i32)
        requires
            i32::MIN <= roll + self.modifier <= i32::MAX,
        ensures
            total == roll + self.modifier,
    {
        roll + self.modifier
    }

    /// Rolls the dice: a number between the count and the count times the
    /// sides, and the modifier added to it.
    pub fn roll(&self, random: &mut Pcg64) -> (total: i32)
        requires
            self.rollable(),
        ensures
            self.spec_min() <= total <= self.spec_max(),
    {
        let high: i32 = (self.count as i64 * self.sides as i64) as i32;
        let roll = gen_range_inclusive(random, self.count, high);
        self.total(roll)
    }

    /// The least total that the dice can show.
    pub fn min(&self) -> (min: i32)
        requires
            i32::MIN <= self.spec_min() <= i32::MAX,
        ensures
            min == self.spec_min(),
    {
        self.count + self.modifier
    }

    /// The greatest total that the dice can show.
    pub fn max(&self) -> (max: i32)
        requires
            i32::MIN <= self.spec_max() <= i32::MAX,
        ensures
            max == self.spec_max(),
    {
        proof {
            assert(-0x8000_0000 * 0x8000_0000 <= self.count * self.sides <= 0x8000_0000
                * 0x8000_0000) by (nonlinear_arith)
                requires
                    -0x8000_0000 <= self.count <= 0x7fff_ffff,
                    -0x8000_0000 <= self.sides <= 0x7fff_ffff,
            ;
        }
        (self.count as i64 * self.sides as i64 + self.modifier as i64) as i32
    }

    /// The dice in their notation: the modifier is left out where it is zero.
    pub open spec fn spec_text(&self) -> Seq<char> {
        if self.modifier == 0 {
            decimal(self.count as int) + seq!['d'] + decimal(self.sides as int)
        } else {
            decimal(self.count as int) + seq!['d'] + decimal(self.sides as int) + seq!['+']
                + decimal(self.modifier as int)
        }
    }

    /// The dice in their notation: the modifier is left out where it is zero.
    pub fn to_string(&self) -> (text: String)
        ensures
            text@ == self.spec_text(),
    {
        proof {
            reveal_strlit("d");
            reveal_strlit("+");
        }
        let mut text = String::new();
        push_decimal(&mut text, self.count);
        text.append("d");
        push_decimal(&mut text, self.sides);
        if self.modifier != 0 {
            text.append("+");
            push_decimal(&mut text, self.modifier);
        }
        proof {
            assert(text@ =~= self.spec_text());
        }
        text
    }

    /// The dice that the parts of a match write.
    pub fn from_captures(captures: &DiceCaptures) -> (dice: Result<Dice, DiceError>)
        ensures
            dice == dice_from_parts(captures@),
    {
        let count = match &captures.count {
            Some(text) => parse_i32(text.as_str()),
            None => Some(1),
        };
        let count = match count {
            Some(count) => count,
            None => {
                return Err(DiceError::ParseCount);
            },
        };
        let sides = match &captures.sides {
            Some(text) => parse_i32(text.as_str()),
            None => {
                return Err(DiceError::MissingSides);
            },
        };
        let sides = match sides {
            Some(sides) => sides,
            None => {
                return Err(DiceError::ParseSides);
            },
        };
        let modifier = match &captures.modifier {
            Some(text) => parse_i32(text.as_str()),
            None => Some(0),
        };
        let modifier = match modifier {
            Some(modifier) => modifier,
            None => {
                return Err(DiceError::ParseModifier);
            },
        };
        Ok(Self { count, sides, modifier })
    }

    /// Reads dice from their notation.
    pub fn from_str(s: &str) -> (dice: Result<Dice, DiceError>)
        ensures
            dice == dice_from_match(
                regex_first_captures(DICE_PATTERN@, s@, "count"@, "sides"@, "modifier"@),
            ),
    {
        match first_captures(DICE_PATTERN, s, "count", "sides", "modifier") {
            Some(captures) => Self::from_captures(&captures),
            None => Err(DiceError::Unparseable),
        }
    }
}

impl core::str::FromStr for Dice {
    type Err = DiceError;

    fn from_str(s: &str) -> (dice: Result<Self, Self::Err>)
        ensures
            dice == dice_from_match(
                regex_first_captures(DICE_PATTERN@, s@, "count"@, "sides"@, "modifier"@),
            ),
    {
        Dice::from_str(s)
    }
}

} // verus!
