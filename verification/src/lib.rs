//! A small windowing library: platform-independent keys and input state,
//! the macOS keycode table and window records, and the Windows window builder.
pub mod buttons;
pub mod keys_mac;
pub mod events;
pub mod state_tracker;
pub mod application;
pub mod window_mac;
pub mod window_manager_windows;
