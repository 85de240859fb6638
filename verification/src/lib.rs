//! Verified core of a DDC/CI monitor input switcher.
//!
//! The library models the three stages of one invocation: building a
//! filter over attached displays, locating the displays that match it,
//! and issuing "set input source" or "toggle input source" commands to
//! each match.  All protocol I/O stays outside the library; its
//! outcomes enter the verified functions as plain values.

mod seqs;
mod text;

pub mod display;
pub mod filter;
pub mod run;
pub mod source;
