//! Capture sources and the builders that configure them.

pub mod either;
pub mod linux;
pub mod linux_general_screen_capture;
pub mod linux_general_window_capture;
pub mod monitor_capture;
pub mod windows;
