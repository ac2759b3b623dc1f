//! A tabletop character generator: dice rolling, ability scores with derived
//! modifiers, race and class lookup tables, and a character aggregate with
//! derived combat and progression statistics, plus a token-based record codec
//! for persisting characters.

pub mod ability;
pub mod character;
pub mod class;
pub mod dice;
pub mod equipment;
pub mod experience;
pub mod fileio;
pub mod money;
pub mod race;
pub mod record;
pub mod skill;
