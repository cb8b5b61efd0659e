//! Host facts rendered beside a distribution logo.
//!
//! The library resolves each fact about the host from what its sources
//! gave, picks the logo of the system, and renders both: side by side,
//! stacked, in a short form, or as a structured document. It reads nothing
//! and prints nothing itself: the caller hands in what was read and gets
//! the lines to print.

pub mod ansi;
pub mod art;
pub mod ascii;
pub mod config;
pub mod desktop;
pub mod display;
pub mod gpu;
pub mod json;
pub mod system_info;
pub mod text;

pub use config::Config;
pub use display::Display;
pub use system_info::SystemInfo;
