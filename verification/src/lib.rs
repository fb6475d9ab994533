//! Supervision core for a desktop panel that launches an XR runtime service:
//! the environment it is started with, the life cycle of the child process,
//! the pump that forwards its output, and the console that collects it.
//!
//! The library performs no I/O. Spawning, signalling, reaping and reading the
//! pipe are done by the host program, which reports each outcome back as a
//! plain value; every decision taken on those outcomes is made here.

pub mod ansi;
pub mod channel;
pub mod compositor;
pub mod console;
pub mod control_panel;
pub mod env_var;
pub mod instance;
pub mod io;
pub mod log_options;
pub mod monado_control;
pub mod overlay;
pub mod process;
pub mod pump;
pub mod registry;
pub mod rex_app;
