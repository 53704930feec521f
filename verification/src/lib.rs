//! Verified core of the Vaults Bridge device application.

pub mod backup_flow;
pub mod clock;
pub mod text;
pub mod transport;
