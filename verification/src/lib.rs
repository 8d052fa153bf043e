//! Verified core of an in-process toolkit for a Source-engine game client:
//! entity predicates, render command sequencing, model path parsing,
//! input mapping, netvar offsets and byte-pattern scanning.

pub mod entity;
pub mod entities;
pub mod render;
pub mod features;
pub mod imgui;
pub mod win32;
pub mod text;
pub mod patterns;
pub mod netvar_manager;
pub mod key_values;
pub mod color;
pub mod texture_upload;
pub mod hooks;
pub mod logger;
pub mod engine;
pub mod draw_lists;
