//! Verified core of a gettext translation tool.
//!
//! The library holds the logic that is worth proving: the line-oriented
//! catalog-entry scanner, the inline `gettext(...)` literal scanner, the
//! retry/backoff policy of the translation client, and the language-code
//! lookup table. Directory walking, console output and the network call
//! itself live outside the library and hand it plain values.

pub mod chars;
pub mod inline;
pub mod languages;
pub mod openai;
pub mod translator;
