//! Control-plane core of a desktop network and Bluetooth applet.

pub mod access_points;
pub mod active;
pub mod bluetooth;
pub mod bus;
pub mod cli;
pub mod config;
pub mod connect;
pub mod daemon;
pub mod details;
pub mod events;
pub mod messages;
pub mod order;
pub mod profiles;
pub mod text;
pub mod theme;
