//! Decision logic of the NeeN desktop agent: notification triage, input
//! planning, screen-frame processing, voice buffering, request building and
//! configuration state, each with a contract proved by Verus.

pub mod text;
pub mod keyed;
pub mod notification_monitor;
pub mod system_control;
pub mod screen_capture;
pub mod voice_processor;
pub mod config;
pub mod neen_api;
pub mod ai_engine;
pub mod commands;
