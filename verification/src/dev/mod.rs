//! The development runner: from its command line to the tmux and process
//! invocations that serve the app, the server and the logs.
pub mod process;
pub mod cli;
pub mod tmux;
pub mod runner;
pub mod logcat;




