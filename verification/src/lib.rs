//! Enumeration and control of HID game-controller device nodes.
//!
//! The library holds the verified core of the tool: decoding of the
//! UTF-16 registry property buffers that the platform hands back,
//! interpretation of device-node status bit flags, the hardware-id
//! filter that recognises game controllers, and the lookup and
//! record-building logic over a snapshot of raw device-node data.
//! The thin layer that talks to the operating system lives outside
//! the library and feeds it plain values.

pub mod cli;
pub mod registry;
pub mod status;
pub mod wide;
