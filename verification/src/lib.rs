//! Verified core of the sumi audio visualizer: window geometry, configuration
//! defaults and path resolution, the capture sample ring and sample decoding,
//! log retention, and the tray icon's pixel layout.

pub mod floating;
pub mod audio;
pub mod config;
pub mod build_info;
pub mod logging;
pub mod tray;
pub mod reload;
pub mod surface;
