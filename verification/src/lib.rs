use vstd::prelude::*;

pub mod bindings;
pub mod config;
pub mod desktop;
pub mod duration;
pub mod filesystem;
pub mod grpc;
pub mod ids;
pub mod net;
pub mod proto;
pub mod server;
pub mod text;
pub mod types;

verus! {
} // verus!
