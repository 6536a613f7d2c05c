//! Orchestrates the binding between a cellular modem and the kernel network
//! interface that carries its traffic: classifies modem ports, resolves the
//! driving interface, and plans the ordered connect / disconnect sequences.

pub mod address;
pub mod bearer;
pub mod cli;
pub mod device;
pub mod errors;
pub mod iface;
pub mod ip;
pub mod modem;
pub mod orchestrator;
pub mod ports;
pub mod resolv;
pub mod resolver;
pub mod strutil;
