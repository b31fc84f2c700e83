//! Library core of the Warp control surface: the wire protocol, frame
//! layout, text matching used by `wait-for-text`, keystroke encoding, the
//! CLI request builder and response renderer, and the git chip payloads.

pub mod text;
pub mod git_chips;
pub mod wire;
pub mod framing;
pub mod cli;
pub mod render;
pub mod keys;
pub mod snapshot;
pub mod pattern;
pub mod matching;
pub mod wait;
pub mod workspace;
pub mod handlers;
pub mod activity;
