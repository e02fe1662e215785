pub mod device;
pub mod error;
pub mod manager;
pub mod record;
pub mod state;
pub mod transfer;
