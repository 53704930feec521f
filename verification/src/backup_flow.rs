//! Encrypted backup and restore: the decisions between the steps that only the
//! device can take.

pub mod export;
pub mod panel;
pub mod path;
pub mod picker;
pub mod restore;
pub mod storage;
