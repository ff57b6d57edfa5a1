//! The Linux input and display core of a streaming host: the wire's touch plane as multitouch
//! frames for a uinput touchscreen, and the control of virtual outputs in a niri session.

pub mod cast;
pub mod cast_laws;
pub mod contacts;
pub mod double;
pub mod evdev;
pub mod json;
pub mod monitor_laws;
pub mod monitors;
pub mod niri;
pub mod niri_error;
pub mod niri_msg;
pub mod output_names;
pub mod session_laws;
pub mod text;
pub mod touch_laws;
pub mod touchscreen;
