//! The tokens that the scanner produces, and their mathematical model.

use vstd::prelude::*;

verus! {

/// One lexical unit. Every variant but `Invalid` stands for a lexeme that was
/// recognised; `Invalid` carries a diagnostic and the line on which the error
/// was detected. Lines are counted from 0: the line of a token is the number
/// of newline characters consumed before it was produced.
///
/// Payloads are owned, so a token outlives the scanner that made it.
#[derive(Clone, PartialEq, Debug)]
pub enum Token {
    LeftParen,
    RightParen,
    LeftBrace,
    RightBrace,
    LeftBracket,
    RightBracket,
    Comma,
    Dot,
    Semicolon,
    Minus,
    Plus,
    Slash,
    Star,
    Bang,
    BangEqual,
    Equal,
    EqualEqual,
    Greater,
    GreaterEqual,
    Less,
    LessEqual,
    /// A name.
    Identifier(String),
    /// The characters between two double quotes, taken as they are.
    StringLiteral(String),
    /// The text of a number and its value, the latter as the bits of an
    /// IEEE 754 single-precision number.
    NumberLiteral(String, u32),
    /// The input is exhausted.
    EndOfInput,
    /// A lexical error: the message and the line on which it was detected.
    Invalid(String, usize),
}

/// What a `Token` is, with each string taken as its sequence of characters.
pub enum TokenView {
    LeftParen,
    RightParen,
    LeftBrace,
    RightBrace,
    LeftBracket,
    RightBracket,
    Comma,
    Dot,
    Semicolon,
    Minus,
    Plus,
    Slash,
    Star,
    Bang,
    BangEqual,
    Equal,
    EqualEqual,
    Greater,
    GreaterEqual,
    Less,
    LessEqual,
    Identifier(Seq<char>),
    StringLiteral(Seq<char>),
    NumberLiteral(Seq<char>, u32),
    EndOfInput,
    Invalid(Seq<char>, usize),
}

impl View for Token {
    type V = TokenView;

    open spec fn view(&self) -> TokenView {
        match self {
            Token::LeftParen => TokenView::LeftParen,
            Token::RightParen => TokenView::RightParen,
            Token::LeftBrace => TokenView::LeftBrace,
            Token::RightBrace => TokenView::RightBrace,
            Token::LeftBracket => TokenView::LeftBracket,
            Token::RightBracket => TokenView::RightBracket,
            Token::Comma => TokenView::Comma,
            Token::Dot => TokenView::Dot,
            Token::Semicolon => TokenView::Semicolon,
            Token::Minus => TokenView::Minus,
            Token::Plus => TokenView::Plus,
            Token::Slash => TokenView::Slash,
            Token::Star => TokenView::Star,
            Token::Bang => TokenView::Bang,
            Token::BangEqual => TokenView::BangEqual,
            Token::Equal => TokenView::Equal,
            Token::EqualEqual => TokenView::EqualEqual,
            Token::Greater => TokenView::Greater,
            Token::GreaterEqual => TokenView::GreaterEqual,
            Token::Less => TokenView::Less,
            Token::LessEqual => TokenView::LessEqual,
            Token::Identifier(name) => TokenView::Identifier(name@),
            Token::StringLiteral(contents) => TokenView::StringLiteral(contents@),
            Token::NumberLiteral(text, bits) => TokenView::NumberLiteral(text@, *bits),
            Token::EndOfInput => TokenView::EndOfInput,
            Token::Invalid(message, line) => TokenView::Invalid(message@, *line),
        }
    }
}

impl DeepView for Token {
    type V = TokenView;

    open spec fn deep_view(&self) -> TokenView {
        self@
    }
}

} // verus!
