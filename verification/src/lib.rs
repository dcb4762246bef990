//! Supervision of one tracked browser process and of bundled tool runs:
//! the registry slot, the launch and termination decisions, the collection of
//! subprocess output, and the self-update flow as a state machine.
//!
//! Nothing here spawns, waits or touches the network. Every function takes
//! plain values and returns plain values; the caller performs the action that
//! a function hands back and reports what happened.

pub mod command;
pub mod error;
pub mod launch;
pub mod output;
pub mod registry;
pub mod repository;
pub mod sidecar;
pub mod termination;
pub mod text;
pub mod update;

pub use command::{CommandLine, ProcessHandle, ProcessOutput};
pub use error::SupervisorError;
pub use output::{OutputBuffer, OutputEntry, OutputEvent, StreamTag};
pub use registry::ChromeState;
pub use update::{
    DownloadProgress, UpdateAction, UpdateEvent, UpdateFault, UpdateManifest, UpdateState,
};
