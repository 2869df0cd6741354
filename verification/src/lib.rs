//! Build status at a glance: the latest workflow run of every repository of
//! an account, reduced to one symbol per repository.
//!
//! The library holds everything but the network and the terminal: the
//! addresses to ask, the order in which to ask them, the symbol for a run and
//! the line to write. A caller performs each request and hands the answer
//! back.

pub mod classify;
pub mod endpoint;
pub mod order;
pub mod report;
pub mod run;
pub mod survey;
pub mod text;
