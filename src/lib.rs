//! Telemetry collector core for live-streaming rooms: packet decoding,
//! measurement points, buffering and flush policy, derived signals and the
//! roster and supervision decisions that drive the runtime.

pub mod danmu;
pub mod danmu_counter;
pub mod file_sink;
pub mod influx;
pub mod json;
pub mod messages;
pub mod monitor;
pub mod packet;
pub mod point;
pub mod popularity;
pub mod replay;
pub mod room_info;
pub mod roster;
pub mod spider;
pub mod subscriber;
pub mod text;
