//! Client-side logic for a game-account toolset: a paginated leaderboard
//! scanner with partial-result tolerance, and a single-shot message sender.
//!
//! All network protocol work (authentication, command dispatch) is left to
//! the caller; this crate holds the decisions: which page to request next,
//! when a scan terminates, which players are retained, how command-line
//! arguments become a message, and when missing configuration aborts a run.

pub mod config;
pub mod mailer;
pub mod player;
pub mod scanner;
