//! Verified core of a speech-to-text dictation assistant: the dual-mode hotkey
//! state machine, transcript formatting, notification and report text, and the
//! decisions that the daemon, tray and settings panel take.
pub mod audio;
pub mod autostart;
pub mod cli;
pub mod config;
pub mod daemon;
pub mod doctor;
pub mod gui;
pub mod history;
pub mod hotkey;
pub mod notification;
pub mod output;
pub mod setup;
pub mod text;
pub mod transcribe;
pub mod tray;
pub mod ui_service;
