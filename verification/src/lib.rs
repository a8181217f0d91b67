//! A MIX computer: the word algebra, the instruction set and its CPU, block
//! devices, and an assembler for MIXAL.
//!
//! - `mix`: words, addresses, fields, instructions and the character table.
//! - `operations`: the operations of the machine, one type for each group.
//! - `computer`: registers and memory, and the cycle that runs a program.
//! - `io`: the devices, each with a medium and a mailbox of messages.
//! - `mixal`: lexer, parser and assembler, and the deck of punched cards.
//!
//! Every function states what it returns and what it changes over plain
//! values: the views of the machine, of a device and of the assembler, and
//! functions on sequences of characters and lexemes. No function panics on
//! what its contract admits: an instruction that cannot be carried out, a
//! source text that is no program and a device that cannot do what it is
//! asked are values that come back.

pub mod computer;
pub mod io;
pub mod mix;
pub mod mixal;
pub mod operations;
