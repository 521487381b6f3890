//! Verified core of a local session controller for a tick-driven game process.
//!
//! The library holds the decisions of a session: how errors are classified, how
//! request identifiers are allotted, how responses are correlated and recorded,
//! how the recording and replay state machines move, and the input and capture
//! rules that a game-side bridge applies. Process supervision, pipes, threads and
//! the file system live in the application around it.
pub mod text;
pub mod json;
pub mod paths;
pub mod error;
pub mod protocol;
pub mod command;
pub mod history;
pub mod session;
pub mod recording;
pub mod loader;
pub mod replay;
pub mod coordinator;
pub mod keyboard;
pub mod pointer;
pub mod text_input;
pub mod window;
pub mod bridge;
pub mod screenshot;
pub mod capture;
pub mod launch;
pub mod inspect;
