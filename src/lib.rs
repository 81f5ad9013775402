//! Maps a processor architecture name and its feature flags onto the
//! platform identifier that container image registries use
//! (`linux/amd64`, `linux/arm/v7`, ...), and decides what a command-line
//! tool built on it prints and with which status it exits.
pub mod report;
pub mod resolver;
pub mod text;
