//! Decision logic of the FLM daemon, which streams an X11 virtual monitor to
//! an Android device: configuration, the control-channel message, RandR
//! monitor and mode selection, the capture pipeline description and the tray
//! state machine.

pub mod text;
pub mod config;
pub mod control;
pub mod dialog;
pub mod randr;
pub mod stream;
pub mod tray;
