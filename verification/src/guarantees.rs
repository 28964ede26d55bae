//! What holds of the daemon as a whole.
pub mod choosing;
pub mod connection;
pub mod cycle;
pub mod devices;
pub mod dongle;
pub mod messages;
pub mod names;
pub mod numbers;
pub mod outputs;
pub mod pass;
pub mod polling;
pub mod routes;
pub mod routing;
pub mod state;
pub mod views;
pub mod words;
