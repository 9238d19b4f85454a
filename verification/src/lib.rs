//! Decision logic of the desktop agent server: the send-message plan, the
//! finder short-link and video-download request rules, and the command
//! environment of the helper tools.
use vstd::prelude::*;

pub mod a11y;
pub mod exec;
pub mod finder_short_link;
pub mod json;
pub mod send_message;
pub mod text;
pub mod video_downloads;

verus! {
} // verus!
