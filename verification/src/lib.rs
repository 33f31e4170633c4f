//! Lifecycle planning for a regtest `electrs` daemon in integration tests.
//!
//! The crate decides; it does not act. It builds the daemon's command line,
//! says where its data directory goes, resolves its executable, and runs the
//! state machines of launch, teardown and waiting. Spawning, signalling,
//! sleeping and talking to the daemon are left to whoever drives those
//! machines.

pub mod args;
pub mod conf;
pub mod controller;
pub mod datadir;
pub mod endpoints;
pub mod error;
pub mod exe;
pub mod launch;
pub mod node;
pub mod text;
pub mod versions;
pub mod wait;

pub use conf::Conf;
pub use controller::ElectrsD;
pub use datadir::DataDir;
pub use error::Error;
pub use exe::{downloaded_exe_path, exe_path};
pub use versions::electrs_name;
