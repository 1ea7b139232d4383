//! Deciding on an update, and carrying it out.

pub mod apt;
pub mod apt_engine;
pub mod apt_trace;
pub mod artifact;
pub mod check;
pub mod choices;
pub mod download;
pub mod engine;
pub mod engine_trace;
pub mod fetch_trace;
pub mod gate;
pub mod installer;
pub mod loader;
pub mod paths;
pub mod process;
pub mod records;
pub mod self_update;
pub mod status;
pub mod upgrade;
pub mod version;

pub use crate::update::check::{
    check, exit_for_check, CheckAction, CheckEvent, CheckOutcome, CheckResult, CheckRun,
};
pub use crate::update::engine::{install_engine, Engine, EngineAction, EngineEvent, EngineInput};
pub use crate::update::gate::ensure_installable;
pub use crate::update::records::{read_installed_version, LastUpdateAttempt};
pub use crate::update::status::{
    exit_for_update, UpdateStage, UpdateStatus, MANUAL_UPDATE_HINT,
};
pub use crate::update::upgrade::GateError;
pub use crate::update::version::{channel_of_version, compare_components};
