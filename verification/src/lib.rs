//! The decision logic of a desktop launcher that checks for Node.js and the
//! DeepSeek Harness (`dsh`) command, installs or updates `dsh` through npm,
//! starts its local web service and reports the progress as a snapshot.

pub mod command;
pub mod laws;
pub mod messages;
pub mod process;
pub mod snapshot;
pub mod state;
pub mod text;
pub mod version;
pub mod worker;

