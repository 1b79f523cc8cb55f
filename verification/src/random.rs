//! Dice and the generator that rolls them.

pub mod dice;
pub mod dice_error;
pub mod random;

pub use self::dice::Dice;
pub use self::dice_error::DiceError;
pub use self::random::Random;
