//! Verified core of a local device-simulator tool server: argument building,
//! text handling and the step-by-step decisions behind each device tool.
pub mod command;
pub mod display;
pub mod error;
pub mod escape;
pub mod platform;
pub mod properties;
pub mod protocol;
pub mod reply;
pub mod screenshot;
pub mod session;
pub mod text;
pub mod tool_laws;
