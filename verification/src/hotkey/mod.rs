pub mod evdev_listener;
pub mod ipc;
pub mod state;
