//! The decisions of an on-screen display that shows the laptop's power
//! mode whenever the kernel's platform profile changes: reading the profile,
//! choosing what to pass on, what to show, and how to place the window.

pub mod config;
pub mod monitor;
pub mod text;
pub mod ui;
pub mod window;
