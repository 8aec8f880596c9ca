//! A lexical scanner: a character cursor with bounded lookahead and a
//! token-classification state machine on top of it.

pub mod grammar;
pub mod lemmas;
pub mod lookahead;
pub mod scanner;
pub mod source_iterator;
pub mod strings;
pub mod token;

pub use crate::scanner::Scanner;
pub use crate::scanner::TokenIterator;
pub use crate::source_iterator::SourceIterator;
pub use crate::token::Token;
