//! Core of a network port scanner.
//!
//! - `ports`: the port sequencer, from a port specification to the ordered,
//!   duplicate-free sequence of ports to probe.
//! - `engine`: the scan engine, which hands out target × port work in
//!   batches of at most `concurrency_limit`, decides retries, and folds the
//!   outcomes into a canonical per-target result. It does no I/O itself.
//! - `report`: the text of the per-host report.
//! - The rest models the interactive front end: text fields, the output and
//!   results panes, the configuration form, the application model and its
//!   update function, and the mapping of keys and clicks to messages.
pub mod text;
pub mod ports;
pub mod engine;
pub mod report;
pub mod text_input;
pub mod output_buffer;
pub mod results;
pub mod scan_config;
pub mod opts;
pub mod app_state;
pub mod model;
pub mod events;
pub mod capture;
pub mod widgets;
