//! Decision logic of a daemon that follows the power state of a HyperX Cloud III S headset.
//!
//! Everything that reads a device, talks to the sound server or looks at the clock stays outside:
//! this crate takes what was read and says what to do next.
pub mod text;
pub mod number;
pub mod usb_id;
pub mod sink;
pub mod selection;
pub mod time;
pub mod hid;
pub mod probe;
pub mod connection;
pub mod router;
pub mod reconcile;
pub mod daemon;
pub mod state_file;
pub mod guarantees;
