//! NUM and CHAR: between a number and its decimal digits as characters.

pub mod convert_to_characters;
pub mod convert_to_numeric;

pub use convert_to_characters::ConvertToCharacters;
pub use convert_to_numeric::ConvertToNumeric;
