//! Supervisor core for a long-running Tor child process: configuration
//! rendering, PID-file accounting, secret-file handling, and the decision
//! logic of the supervising event loop.

pub mod cli;
pub mod command;
pub mod configuration;
pub mod controller;
pub mod environment;
pub mod error;
pub mod event_loop;
pub mod hidden_service_directory;
pub mod job;
pub mod pid;
pub mod scheduler;
pub mod secret_file;
pub mod text;
pub mod tor_rc;

pub use command::Command;
pub use configuration::Configuration;
pub use configuration::HiddenService;
pub use controller::Controller;

