//! Verified core of a spacecraft CAN communication stack: frame codec with
//! CANopen-style identifier bands, packet segmentation and reassembly,
//! redundant dual-bus network selection, and heartbeat/sync liveness timing.

pub mod bus;
pub mod controller;
pub mod frame;
pub mod frame_buffer;
pub mod function_management;
pub mod heartbeat;
pub mod mock;
pub mod network;
pub mod packet;
pub mod parser;
pub mod protocol;
pub mod responder;
pub mod services;
pub mod sync;
pub mod time;
pub mod timer;
