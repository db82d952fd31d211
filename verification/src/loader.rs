//! Loading a UIX asset from the text of its file.
use vstd::prelude::*;
use crate::asset::UIX;
use crate::chars::joined;
use crate::error::ParseError;
use crate::parser::{parse, parse_outcome};

verus! {

#[verifier::external_type_specification]
#[verifier::external_body]
pub struct ExIoError(std::io::Error);

/// Why an asset could not be loaded.
#[derive(Debug)]
pub enum UIXLoaderError {
    /// The file was read but is no UIX document.
    XmlError(ParseError),
    /// The file could not be read.
    IOError(std::io::Error),
}

impl UIXLoaderError {
    /// The error in words: `Parse UIX error: ` and the parse error's own
    /// words, or `IO error: ` and what the system says.
    pub fn message(&self) -> (text: String)
        ensures
            match self {
                UIXLoaderError::XmlError(ParseError::InvalidFormat(m)) => text@
                    == "Parse UIX error: "@ + ("Invalid UIX format: "@ + m@),
                UIXLoaderError::XmlError(ParseError::InvalidXml(_)) => "Parse UIX error: "@.is_prefix_of(
                    text@,
                ),
                UIXLoaderError::IOError(_) => "IO error: "@.is_prefix_of(text@),
            },
    {
        match self {
            UIXLoaderError::XmlError(e) => {
                let said = e.message();
                joined("Parse UIX error: ", said.as_str())
            },
            UIXLoaderError::IOError(e) => {
                let said = e.to_string();
                joined("IO error: ", said.as_str())
            },
        }
    }
}

/// Turns the text of `*.ui.xml` files into `UIX` assets.
pub struct UIXLoader;

impl UIXLoader {
    /// The file name endings that this loader is meant for.
    pub fn extensions(&self) -> (res: Vec<&'static str>)
        ensures
            res@.len() == 1,
            res@[0]@ == "ui.xml"@,
    {
        vec!["ui.xml"]
    }

    /// Parses the text of a file that was read in full: the asset holds the
    /// tree that the text describes, and a parse error comes back wrapped.
    pub fn load(&self, text: &str) -> (res: Result<UIX, UIXLoaderError>)
        ensures
            match res {
                Ok(uix) => parse_outcome(text@, Ok(uix.root)),
                Err(UIXLoaderError::XmlError(e)) => parse_outcome(text@, Err(e)),
                Err(UIXLoaderError::IOError(_)) => false,
            },
    {
        match parse(text) {
            Ok(root) => Ok(UIX { root: root }),
            Err(e) => Err(UIXLoaderError::XmlError(e)),
        }
    }
}

} // verus!
