use vstd::prelude::*;

verus! {

/// A structured parse failure: the offending command's tag where one was
/// parsed, so a tagged response can echo it, and a message for the client.
/// An error without a tag is connection-fatal: no tagged response is
/// possible and the caller should reset the connection.
#[derive(Clone, PartialEq, Eq, Debug)]
pub struct ParseError {
    pub tag: Option<Vec<u8>>,
    pub message: String,
}

/// Mathematical image of a `ParseError`.
#[verifier::ext_equal]
pub struct ErrorModel {
    pub tag: Option<Seq<u8>>,
    pub message: Seq<char>,
}

impl View for ParseError {
    type V = ErrorModel;

    open spec fn view(&self) -> ErrorModel {
        ErrorModel {
            tag: match self.tag {
                Some(t) => Some(t@),
                None => None,
            },
            message: self.message@,
        }
    }
}

} // verus!
