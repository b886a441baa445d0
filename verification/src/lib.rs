//! Verified core of the erudition quiz server and its development runner.
//!
//! The server keeps quiz items, feedback and user accounts, hands out
//! session ids and answers HTTP requests; the development runner turns its
//! command line into tmux and process invocations. Everything that decides
//! or computes lives here with a contract; the executable around it performs
//! the file, network and process work.
pub mod text;
pub mod session;
pub mod table;
pub mod shared;
pub mod item;
pub mod storage;
pub mod password;
pub mod state;
pub mod routes;
pub mod questions;
pub mod dir;
pub mod initialise;
pub mod logging;
pub mod dev;
