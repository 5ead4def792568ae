pub mod message;
pub mod remote;
pub mod transfer;
pub mod sources;
