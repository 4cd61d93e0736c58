//! The decisions behind a tray monitor for the PCIe link of a GPU.
//!
//! Alarm signals (power-management aware):
//!   * width < baseline, sustained (debounced) => degraded
//!   * gen < baseline only while the GPU is active => warning
//!   * poller errors, or no samples at all => lost

pub mod config;
pub mod icon;
pub mod level;
pub mod logfile;
pub mod monitor;
pub mod poller;
pub mod text;
pub mod ui;
pub mod win32;
