//! The decision logic of an interactive front end to a video downloader.
//!
//! The library reads no terminal and runs no process. It decides:
//!
//! - [`url`]: which strings are supported video URLs;
//! - [`command`]: what a line of input asks for;
//! - [`download`]: which processes one download takes, in which order, and
//!   what their endings mean;
//! - [`session`]: what each piece of input leads to in the interactive
//!   loop, and how a session counts its downloads;
//! - [`launch`]: what a run of the program does, given its command line;
//! - [`error`]: what can go wrong with a request, and how it is worded.
//!
//! [`text`] holds what the others need of characters and words.
//!
//! Every function states what it returns over a mathematical model of its
//! arguments, and is proved to do so. One thing is believed without proof:
//! that `regex_syntax::is_word_character`, which [`url`] asks about the
//! characters beyond ASCII, answers alike for the same character.

pub mod command;
pub mod download;
pub mod error;
pub mod launch;
pub mod session;
pub mod text;
pub mod url;
