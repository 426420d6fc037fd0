//! Orchestrator for running a parsed script of request/response entries.
//!
//! A script is an ordered sequence of entries. Running it means executing the
//! entries one after another, threading a mutable variable environment across
//! them, honouring the caller's run policy (entry bound, fail-fast, pre/post
//! entry hooks that may halt the run) and aggregating every per-entry outcome
//! into one final result.
//!
//! The pieces that talk to the outside world (the single-entry executor, the
//! logger, the per-entry policy resolver, the HTTP session) are collaborators
//! of this crate, not part of it: a driver performs those calls and feeds what
//! they returned into the verified state machine of [`state`]. The function
//! [`runner::run`] is the same orchestration loop with the collaborators'
//! answers supplied up front as data.

mod clock;
pub mod laws;
pub mod options;
pub mod outcome;
pub mod runner;
pub mod state;
pub mod value;
pub mod variables;

pub use options::RunnerOptions;
pub use runner::run;
pub use runner::EntryBehavior;
pub use outcome::Cookie;
pub use outcome::EntryResult;
pub use outcome::HurlResult;
pub use outcome::RunnerError;
pub use state::RunState;
pub use value::Value;
pub use variables::Variables;
