//! Encoding parameters, ffmpeg command construction, progress parsing and
//! job bookkeeping for a portable media converter.
pub mod text;
pub mod enums;
pub mod config;
pub mod error;
pub mod i18n;
pub mod job;
pub mod ffmpeg;
pub mod parse;
pub mod float;
pub mod progress;
pub mod preset;
pub mod commands;
pub mod session;
pub mod controls;
pub mod tables;
