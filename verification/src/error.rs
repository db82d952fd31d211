//! Why a markup text was turned down.
use vstd::prelude::*;
use crate::chars::joined;

verus! {

/// The two ways a parse fails.
#[derive(Debug)]
pub enum ParseError {
    /// The text is not well-formed XML.
    InvalidXml(roxmltree::Error),
    /// The text is XML but not UIX; the message names the offending part.
    InvalidFormat(String),
}

/// `res` is the invalid-format error with exactly the message `msg`.
pub open spec fn fails_with<T>(res: Result<T, ParseError>, msg: Seq<char>) -> bool {
    match res {
        Err(ParseError::InvalidFormat(m)) => m@ == msg,
        _ => false,
    }
}

impl ParseError {
    /// The error in words: for an invalid format, `Invalid UIX format: `
    /// and the message; for malformed XML, `XML parsing error: ` and what
    /// the XML parser says.
    pub fn message(&self) -> (text: String)
        ensures
            match self {
                ParseError::InvalidFormat(m) => text@ == "Invalid UIX format: "@ + m@,
                ParseError::InvalidXml(_) => "XML parsing error: "@.is_prefix_of(text@),
            },
    {
        match self {
            ParseError::InvalidFormat(m) => joined("Invalid UIX format: ", m.as_str()),
            ParseError::InvalidXml(e) => {
                let said = e.to_string();
                joined("XML parsing error: ", said.as_str())
            },
        }
    }
}

/// The invalid-format error whose message is `what` followed by `raw`.
pub fn invalid<T>(what: &str, raw: &str) -> (res: Result<T, ParseError>)
    ensures
        fails_with(res, what@ + raw@),
{
    Err(ParseError::InvalidFormat(joined(what, raw)))
}

} // verus!
