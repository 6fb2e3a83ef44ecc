//! Parts shared by both machines: the frame status and host keys, colors,
//! the debugger and test helpers.
pub mod app;
pub mod colors;
pub mod debugger;
pub mod test_utils;
