//! Coordination core of a trading and peg worker: the state it keeps, the
//! decisions it takes on client commands, wallet events and market-server
//! events, and the notifications it hands out.

pub mod address;
pub mod api;
pub mod assets;
pub mod cipher;
pub mod command;
pub mod duplicate;
pub mod error;
pub mod gateway;
pub mod ids;
pub mod market;
pub mod models;
pub mod peg;
pub mod ports;
pub mod quote;
pub mod registry;
pub mod send;
pub mod table;
pub mod tx;
pub mod wallet;
pub mod worker;
