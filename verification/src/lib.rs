//! A cross-platform location source: picks the location service of the host platform and
//! drives it through permission requests and position reads.
//!
//! The library holds the decisions of each backend; the calls into the operating system
//! (WinRT, CoreLocation, JNI) are made by the program around it, which hands their outcomes
//! back as plain values.
pub mod android;
pub mod error;
pub mod getter;
pub mod lla;
pub mod macos;
pub mod windows;

pub use error::Error;
pub use getter::{Getter, Platform};
pub use lla::Lla;
pub use windows::Windows;
