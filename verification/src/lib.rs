//! Nitrogen core: capture, encoding and streaming configuration logic,
//! with contracts checked by Verus.

pub mod text;
pub mod error;
pub mod types;
pub mod av1;
pub mod config;
pub mod settings;
pub mod gpu;
pub mod env;
pub mod formats;
pub mod encode;
pub mod overlay;
pub mod performance;
pub mod capture;
pub mod output;
pub mod pipeline;
pub mod cli;
pub mod hotkeys;
pub mod scene;
pub mod ipc;
pub mod nvenc;
pub mod audio_encoder;
pub mod frame_copy;
pub mod mixer;
