//! gtl: a git helper that keeps, for each working directory, a list of
//! remotes, and fans `remote add` and `push` out over all of them.
//!
//! The library decides what is run: it builds the argument lists of every
//! git or cargo invocation, the plan of each composite command, the retry
//! decisions of the publish step and the dispatch of the command line. The
//! program around it spawns the processes and reads the files.

pub mod config;
pub mod git;
pub mod publish;
pub mod message;
pub mod plan;
pub mod dispatch;
