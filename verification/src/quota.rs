use crate::error::ParseError;
use crate::receiver::Request;
use crate::token::token_text;
use crate::utf7::{spec_utf7_maybe_decode, utf7_maybe_decode};
use crate::ProtocolVersion;
use vstd::prelude::*;

verus! {

/// Validated arguments of the quota command family: the quota-root or
/// mailbox name, and the originating tag, copied verbatim so that every
/// response — success or error — can echo it.
#[derive(Clone, PartialEq, Eq, Debug)]
pub struct Arguments {
    pub name: Vec<u8>,
    pub tag: Vec<u8>,
}

/// Mathematical image of `Arguments`.
#[verifier::ext_equal]
pub struct ArgumentsModel {
    pub name: Seq<u8>,
    pub tag: Seq<u8>,
}

impl View for Arguments {
    type V = ArgumentsModel;

    open spec fn view(&self) -> ArgumentsModel {
        ArgumentsModel { name: self.name@, tag: self.tag@ }
    }
}

impl Request {
    /// A tagged failure of this request, echoing its tag.
    pub fn into_error(self, message: &str) -> (e: ParseError)
        ensures
            e@.tag == Some(self@.tag),
            e@.message == message@,
    {
        ParseError { tag: Some(self.tag), message: message.to_owned() }
    }

    /// Parses the arguments of a mailbox-quota lookup: exactly one token,
    /// the mailbox name, decoded through the mailbox-name codec for the
    /// given protocol revision before it is stored.
    pub fn parse_get_quota_root(self, version: ProtocolVersion) -> (r: Result<
        Arguments,
        ParseError,
    >)
        ensures
            self@.tokens.len() == 1 ==> (r matches Ok(a) && a@.tag == self@.tag && a@.name
                == spec_utf7_maybe_decode(token_text(self@.tokens[0]), version)),
            self@.tokens.len() == 0 ==> (r matches Err(e) && e@.tag == Some(self@.tag) && e@.message
                == "Missing mailbox name."@),
            self@.tokens.len() >= 2 ==> (r matches Err(e) && e@.tag == Some(self@.tag) && e@.message
                == "Too many arguments."@),
    {
        if self.tokens.len() == 1 {
            let mut tokens = self.tokens;
            match tokens.pop() {
                Some(t) => Ok(
                    Arguments {
                        name: utf7_maybe_decode(t.unwrap_string(), version),
                        tag: self.tag,
                    },
                ),
                None => Err(
                    ParseError { tag: Some(self.tag), message: "Missing mailbox name.".to_owned() },
                ),
            }
        } else if self.tokens.len() == 0 {
            Err(self.into_error("Missing mailbox name."))
        } else {
            Err(self.into_error("Too many arguments."))
        }
    }

    /// Parses the arguments of a quota-root lookup: exactly one token, the
    /// quota-root name, taken verbatim — a quota root is not a mailbox
    /// name, so no revision-sensitive decoding applies.
    pub fn parse_get_quota(self) -> (r: Result<Arguments, ParseError>)
        ensures
            self@.tokens.len() == 1 ==> (r matches Ok(a) && a@.tag == self@.tag && a@.name
                == token_text(self@.tokens[0])),
            self@.tokens.len() == 0 ==> (r matches Err(e) && e@.tag == Some(self@.tag) && e@.message
                == "Missing quota root."@),
            self@.tokens.len() >= 2 ==> (r matches Err(e) && e@.tag == Some(self@.tag) && e@.message
                == "Too many arguments."@),
    {
        if self.tokens.len() == 1 {
            let mut tokens = self.tokens;
            match tokens.pop() {
                Some(t) => Ok(Arguments { name: t.unwrap_string(), tag: self.tag }),
                None => Err(
                    ParseError { tag: Some(self.tag), message: "Missing quota root.".to_owned() },
                ),
            }
        } else if self.tokens.len() == 0 {
            Err(self.into_error("Missing quota root."))
        } else {
            Err(self.into_error("Too many arguments."))
        }
    }
}

} // verus!
