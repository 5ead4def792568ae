pub mod authenticator;
pub mod connection;
pub mod discovery;
pub mod manual;
pub mod power_manager;
pub mod remote_manager;
pub mod remote_worker;
pub mod transfers;
