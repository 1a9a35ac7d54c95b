//! The answer in a line of console input.
//!
//! A program that prompts its user and reads one line gets more than the
//! answer: the line terminator comes with it, and whatever blanks were typed
//! around the text. [`trim::trim`] returns the answer alone, and is proved to
//! return exactly [`trim::trimmed`] of the line, for every line. At the end
//! of the input the line read is empty, and so is the answer.
//!
//! - [`whitespace`]: which characters are whitespace.
//! - [`trim`]: what trimming a line gives, and the function that computes it.
//! - [`lemmas`]: what follows for every line: trimming cuts whitespace and
//!   nothing else, in one way only, and trimming twice changes nothing.

pub mod lemmas;
pub mod trim;
pub mod whitespace;
