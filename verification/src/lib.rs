//! Rules and data structures of a supervisor that watches video channels and
//! drives recorder processes: feed selection, recorder output parsing,
//! admission control, the broadcast bus, and the payloads built around them.

pub mod config;
pub mod id_set;
pub mod module;
pub mod msgbus;
pub mod pattern;
pub mod text;
pub mod time;
pub mod youtube;
