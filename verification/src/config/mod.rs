pub mod features;
pub mod protocol;
pub mod user;
