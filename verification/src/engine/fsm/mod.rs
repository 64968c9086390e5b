//! The line classifier: a state machine over the bytes of a file that counts
//! code, comment and blank lines, and the lines of embedded child languages.
pub mod classify;
pub mod line_languages;
pub mod lines;
pub mod model;
pub mod notebook;
pub mod parser;
pub mod token;
pub mod types;

use vstd::prelude::*;

verus! {

} // verus!
