//! Render engine of a tabbed terminal dashboard for host telemetry.
//!
//! The library turns plain metric readings into the text, bar lines and
//! layout plans that a terminal front end draws, and drives the tab and
//! input state machine of the dashboard.
pub mod category;
pub mod text;
pub mod band;
pub mod bar;
pub mod cpu;
pub mod memory;
pub mod temperature;
pub mod disk;
pub mod order;
pub mod network;
pub mod process;
pub mod battery;
pub mod layout;
pub mod dashboard;
pub mod panel;
