//! What goes over the network, and what the game makes of what comes in.

pub mod models;
pub mod server_connection;
