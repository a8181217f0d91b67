//! The assembler for MIXAL: lexer, parser and the backend that turns
//! statements into words.

pub mod assembler;
pub mod ast;
pub mod deck;
pub mod grammar;
pub mod laws;
pub mod lexer;
pub mod op_codes;
pub mod parser;
pub mod source;
pub mod symbol;

pub use ast::{
    AlfStatement, Asterisk, ConStatement, EndStatement, EquStatement, Expression, LiteralConstant,
    MixStatement, Node, Number, OrigStatement, Program, Statement, Symbol, WValue, WValuePart,
};
pub use assembler::{AssembleError, Assembler};
pub use grammar::{ParseError, ParseErrorKind};
pub use lexer::{Lexeme, Lexer, Token};
pub use parser::Parser;
pub use source::{assemble_source, SourceError};
