//! Verified core of a terminal tool that compares the running costs of
//! electrical devices: the focus cycle of its form, the single-line text
//! fields, the device list with its duplicate rule, and the routing of key
//! presses to all of these.

pub mod app;
pub mod cli;
pub mod device;
pub mod event;
pub mod focus;
pub mod number;
pub mod textbox;
