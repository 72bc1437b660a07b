//! Verified core of Spool, a portable desktop front end for yt-dlp and ffmpeg.
pub mod commands;
pub mod debug;
pub mod settings;
pub mod text;
pub mod updater;
