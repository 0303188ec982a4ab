//! Connection manager for a single NE4 gas sensor on a serial Modbus line.
//!
//! The manager is the one place that knows whether the application is
//! talking to a device. It takes commands from a presentation layer and
//! answers with events. Everything here decides and nothing here waits: a
//! driver around the library opens serial lines, reads and writes registers,
//! enumerates ports and moves commands and events through its channels.
//!
//! - `dispatcher`: handles one command at a time and owns the connection state.
//! - `poller`: reads frame after frame of registers while the connection is up.
//! - `cycle`: what a whole poll cycle emits, and how a failed one ends.
//! - `action`: the one-shot writes that calibrate and configure the sensor.
//! - `ports`: the order of port names, the port set, and the port watcher.
//! - `session`: what is needed to open a session.
//! - `command`, `event`, `error`, `connection`: the data that goes back and forth.
//! - `sensors`, `readout`, `text`, `treestore_values`: registers by name, and texts for the user.
//! - `serial_thread`: the manager of a plain serial port.

pub mod action;
pub mod command;
pub mod connection;
pub mod cycle;
pub mod dispatcher;
pub mod error;
pub mod event;
pub mod poller;
pub mod ports;
pub mod readout;
pub mod sensors;
pub mod serial_thread;
pub mod session;
pub mod text;
pub mod treestore_values;
