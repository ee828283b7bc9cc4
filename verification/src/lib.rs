//! Voice typing core: the decisions, text processing and data formats behind
//! push-to-talk dictation (record, recognise, polish, inject), stated and
//! proved with Verus.

pub mod text;
pub mod context;
pub mod sound;
pub mod audio;
pub mod asr;
pub mod llm;
pub mod injector;
pub mod pipeline;
pub mod commands;
pub mod tray;
