use vstd::prelude::*;

verus! {

/// The lexical unit of one command line: a bare atom, a quoted string with
/// its escapes already removed, or a literal carrying exactly its declared
/// byte count.
#[derive(Clone, PartialEq, Eq, Debug)]
pub enum Token {
    Atom(Vec<u8>),
    QuotedString(Vec<u8>),
    Literal(Vec<u8>),
}

/// Mathematical image of a `Token`.
#[verifier::ext_equal]
pub enum TokenModel {
    Atom(Seq<u8>),
    QuotedString(Seq<u8>),
    Literal(Seq<u8>),
}

impl View for Token {
    type V = TokenModel;

    open spec fn view(&self) -> TokenModel {
        match self {
            Token::Atom(b) => TokenModel::Atom(b@),
            Token::QuotedString(b) => TokenModel::QuotedString(b@),
            Token::Literal(b) => TokenModel::Literal(b@),
        }
    }
}

/// The text a token coerces to: every token kind carries its bytes.
pub open spec fn token_text(t: TokenModel) -> Seq<u8> {
    match t {
        TokenModel::Atom(b) => b,
        TokenModel::QuotedString(b) => b,
        TokenModel::Literal(b) => b,
    }
}

impl Token {
    /// Coerces the token to its textual bytes; every token kind is text.
    pub fn unwrap_string(self) -> (r: Vec<u8>)
        ensures
            r@ == token_text(self@),
    {
        match self {
            Token::Atom(b) => b,
            Token::QuotedString(b) => b,
            Token::Literal(b) => b,
        }
    }
}

} // verus!
