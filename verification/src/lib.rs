//! Startup sequencing for a node process that must finish its privileged
//! work before it gives up elevated permissions and starts serving.

pub mod daemonizer;
pub mod log_level;
pub mod logger_initializer;
pub mod parameter_finder;
pub mod server_initializer;
