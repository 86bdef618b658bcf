//! Desktop tools: window geometry and the records the Windows API fills.

pub mod processes;
pub mod win32;
pub mod window_tools;
