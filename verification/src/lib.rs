//! A parser for UIX, a small XML dialect that describes a tree of flex
//! containers and styled inline text.
//!
//! `parser::parse` turns a markup text into a `asset::Node`. The XML itself
//! is read by `roxmltree` and copied into plain values (`xml`); everything
//! after that is proved against spec functions: the shape of the document
//! and the tree (`parser`), one attribute into one field (`attribute`), the
//! rules for each kind of value (`convert`, `number`), and white space and
//! other work on characters (`chars`). `laws` holds what follows for every
//! parse.
//!
//! Numbers are kept as the text that spells them and colours as bytes; the
//! library holds no floating point.
pub mod asset;
pub mod attribute;
pub mod chars;
pub mod convert;
pub mod error;
pub mod laws;
pub mod loader;
pub mod number;
pub mod parser;
pub mod style;
pub mod xml;
