//! The stand-alone firmware: state, drivers, compositor and coordinator.

pub mod backend;
pub mod config;
pub mod display;
pub mod lvgl_ui;
pub mod mqtt;
pub mod touch;
pub mod ui;
pub mod wire;
