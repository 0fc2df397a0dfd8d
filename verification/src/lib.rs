//! A minimal PID-1 process supervisor: it spawns a single user command,
//! forwards a fixed set of signals to it, reaps every terminated descendant,
//! and translates the main child's termination into its own exit status.
//!
//! The crate holds the supervisor's decision logic: the signal catalog,
//! command-line and environment-override resolution, the event-loop state
//! machine, and the exit policy. A thin host layer performs the actual
//! process-control calls and feeds their outcomes back into the state
//! machine.

pub mod cli;
pub mod license;
pub mod overrides;
pub mod platform;
pub mod signals;
pub mod supervisor;
