//! The WebUSB transport: newline-delimited JSON over a pair of 64-byte
//! interrupt endpoints.

pub mod descriptor;
pub mod dispatch;
pub mod dispatcher;
pub mod json;
pub mod line;
pub mod reader;
pub mod startup;
pub mod status;
pub mod writer;
