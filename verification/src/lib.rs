//! The orchestration core of a hotkey-driven dictation utility: press a
//! shortcut, speak, release, and the transcribed text is inserted at the
//! cursor.
//!
//! This library holds the decisions — the recording lifecycle state machine,
//! hotkey combination parsing and tracking, model resolution with its
//! fallback policy, the download retry/progress protocol, and the
//! clipboard-insertion plan — each stated as a contract and verified.
//! Devices, the network, the clipboard and the filesystem are the caller's:
//! every function here goes from plain values to plain values.

pub mod text;
pub mod config;
pub mod catalog;
pub mod capture;
pub mod transcriber_utils;
pub mod downloader;
pub mod view;
pub mod app;
pub mod keyboard_layout;
pub mod hotkeys;
pub mod clipboard_inserter;
