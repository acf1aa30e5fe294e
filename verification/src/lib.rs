//! Decision logic of the KDS Guard desktop companion: the settings it keeps,
//! how an alarm response is turned into an alarm decision, how the visible
//! status and the sound suppression follow from that decision, the bounded
//! event log, and the request that a poll sends.

pub mod text;
pub mod time;
pub mod settings;
pub mod alarm;
pub mod status;
pub mod commands;
pub mod poll;
pub mod power;
pub mod laws;
pub mod effects;
