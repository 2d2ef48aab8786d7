//! Tokens of a line, as the highlighter reads them from sqlparser's tokenizer.
use vstd::prelude::*;

use crate::dialect::Dialect;
use sqlparser::keywords::Keyword;
use sqlparser::tokenizer::{Token, Tokenizer, TokenizerError};

verus! {

#[verifier::external_type_specification]
#[verifier::external_body]
pub struct ExTokenizerError(TokenizerError);

/// One token of a line.
pub enum Lexeme {
    /// A word, with its value as written (quotes removed); `reserved` when the
    /// tokenizer matched it to one of its keywords.
    Word { value: String, reserved: bool },
    /// Any other token, with the text that the tokenizer renders for it.
    Other { text: String },
}

/// The mathematical value of a [`Lexeme`].
pub enum LexemeView {
    Word { value: Seq<char>, reserved: bool },
    Other { text: Seq<char> },
}

impl View for Lexeme {
    type V = LexemeView;

    open spec fn view(&self) -> LexemeView {
        match self {
            Lexeme::Word { value, reserved } => LexemeView::Word { value: value@, reserved: *reserved },
            Lexeme::Other { text } => LexemeView::Other { text: text@ },
        }
    }
}

/// The views of a sequence of lexemes.
pub open spec fn lexemes_view(ls: Seq<Lexeme>) -> Seq<LexemeView> {
    ls.map_values(|l: Lexeme| l@)
}

/// What sqlparser's tokenizer makes of `line` under `dialect`: the tokens, or
/// `None` where it reports an error.
pub uninterp spec fn tokens_of(dialect: Dialect, line: Seq<char>) -> Option<Seq<LexemeView>>;

/// Relies on sqlparser's `Tokenizer::tokenize`, run with `dialect`'s identifier
/// rules: its outcome depends on the dialect and the line alone. A word token is
/// carried over with its value and whether its keyword is other than
/// `Keyword::NoKeyword`; any other token as its `Display` rendering.
#[verifier::external_body]
pub(crate) fn tokenize(dialect: &Dialect, line: &str) -> (r: Result<Vec<Lexeme>, TokenizerError>)
    ensures
        r is Ok <==> tokens_of(*dialect, line@) is Some,
        r is Ok ==> tokens_of(*dialect, line@) == Some(lexemes_view(r->Ok_0@)),
{
    let tokens = Tokenizer::new(dialect, line).tokenize()?;
    Ok(tokens.into_iter().map(|t| match t {
        Token::Word(w) => Lexeme::Word { reserved: !matches!(w.keyword, Keyword::NoKeyword), value: w.value },
        other => Lexeme::Other { text: other.to_string() },
    }).collect())
}

} // verus!
