//! Decisions of normalized cross-correlation template matching: locating a
//! small needle image inside a larger haystack image.
//!
//! Decoding, resizing and correlating pixels is the host's work. This crate
//! holds everything that is decided around that work: which defaults apply,
//! when an image is rejected, how large the scaled needle and the correlation
//! surface are, whether the best score counts as a match, and what is
//! reported. A [`session::Session`] asks the host for one piece of work at
//! a time and moves on when the host hands the outcome back.

pub mod binary64;
pub mod error;
pub mod options;
pub mod outcome;
pub mod scaling;
pub mod session;
pub mod size;

pub use crate::options::MatchOptions;
pub use crate::outcome::MatchResult;
pub use crate::session::template_match;
