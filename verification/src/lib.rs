//! A keyboard-driven dashboard for a version-control working tree: a menu
//! with two actions (commit-and-push with a typed message, show status),
//! modelled as a small screen state machine that is verified here.
//!
//! The library holds the state machine and the pure view computation; the
//! terminal loop, the key polling and the subprocess calls live outside it
//! and hand it plain values.

pub mod render;
pub mod state;
pub mod text;
