//! The core of a process supervisor.
//!
//! A supervisor launches one child process, watches it until it ends, and
//! enforces two deadlines on it: a run timeout, and the arrival of a
//! termination signal. Either one shuts the child down in two phases, a
//! cooperative termination signal followed, after a grace period, by a kill.
//! The run always ends in one reported outcome.
//!
//! * [`config`] holds the launch configuration and checks that it is usable.
//! * [`redirection`], [`environment`] and [`launch`] plan the child's
//!   streams, environment and working directory.
//! * [`status`] normalises termination statuses into exit codes and defines
//!   the outcome of a run and what is reported of it.
//! * [`monitor`] decides each iteration of the monitoring loop, and
//!   [`shutdown`] each step of the shutdown; both are state machines over
//!   the [`event`]s that the operations on the child report, and both come
//!   with the laws that hold of all their runs.
//! * [`latch`] is the flag by which a termination signal asks for a stop.
//! * [`child`] declares the operations on the child's handle, and
//!   [`supervise`] carries the two machines out on it.
//!
//! All of this is verified, except for the contracts of the operations on
//! the child's handle and of the installation of signal handlers, which are
//! calls into other crates and are taken from their sources.

pub mod child;
pub mod config;
pub mod environment;
pub mod event;
pub mod latch;
pub mod launch;
pub mod monitor;
pub mod redirection;
pub mod shutdown;
pub mod status;
pub mod supervise;
