//! Proxy lifecycle core: engine configuration synthesis, daemon supervision,
//! operating-system proxy mode switching and PAC script generation.
//!
//! The core decides and computes; it performs no input or output of its own.
//! A host reads storage and files, runs processes and servers, and carries
//! out the commands that the core hands it.

/// Synthesis of the engine configuration from stored settings.
pub mod config;
/// The supervisor of the engine process.
pub mod daemon;
/// The active endpoint of a user.
pub mod endpoints;
/// The events that telemetry reports.
pub mod events;
/// JSON documents, printed and parsed by `serde_json`.
pub mod json;
/// What the mode switch makes of the system's proxy settings.
pub mod mode_laws;
/// The switch between manual, PAC and global mode.
pub mod mode_switch;
/// The proxy settings of the operating system and the commands on them.
pub mod os_proxy;
/// Generation of the PAC script.
pub mod pac;
/// The handle to the local server that serves the PAC script.
pub mod pac_server;
/// The operating systems that the core tells apart.
pub mod platform;
/// Reconciliation at start-up, and the way down at exit.
pub mod reconcile;
/// Engine processes left behind by an earlier session.
pub mod stray;
/// Telemetry configuration, state and identifiers.
pub mod telemetry;
/// Character-sequence utilities.
pub mod text;
/// Values and texts of the system tray.
pub mod tray;
/// The tray's manager and the switch of the active endpoint.
pub mod tray_manager;
/// For how long the application has run.
pub mod uptime;
