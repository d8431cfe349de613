//! Spans a single compositor window across a multi-monitor desktop.
//!
//! The crate contains the geometry and policy core of the tool: monitor span
//! aggregation, output/internal resolution derivation, the bounded window-fit
//! control loop, and the session lifecycle decisions (startup polling, reflow
//! cadence, idempotent teardown).  All side effects — running the compositor's
//! control tool, spawning the child process, reading and writing files — live
//! outside the crate; the functions here take plain values and return plain
//! values or command descriptions.

pub mod autotune;
pub mod command;
pub mod config;
pub mod fit;
pub mod hyprland;
pub mod session;
pub mod sizing;
pub mod text;
pub mod tui_config;
pub mod util;
