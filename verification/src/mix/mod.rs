//! Words, addresses and instructions of the MIX machine.

pub mod address;
pub mod char_codes;
pub mod field;
pub mod instruction;
pub mod laws;
pub mod op_codes;
pub mod text;
pub mod word;

pub use address::Address;
pub use field::{decode_field_spec, field_spec, Comparison};
pub use instruction::Instruction;
pub use word::{CharCodeError, Sign, Word};
