//! Client and server building blocks for Modbus output modules: transport
//! configuration, the connection's life cycle, the command dispatcher and
//! the registry of output devices.

pub mod config;
pub mod connection;
pub mod operation;
pub mod request;
pub mod response;
pub mod device;
pub mod registry;
pub mod simulator;
pub mod laws;
pub mod names;
