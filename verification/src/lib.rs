//! Driver for a 176x264 bi-color electronic-paper panel on a 4-wire serial
//! bus.
//!
//! The controller in [`driver`] sequences the panel's documented command
//! protocol (initialization, lookup-table programming, sleep/wake, clear,
//! full and partial updates) over an abstract transport, [`interface::DisplayInterface`].
//! Every operation's contract states the exact transaction stream it puts on
//! the bus, as a sequence of [`interface::BusEvent`] values.
//!
//! The transport itself (SPI writes, GPIO lines, delays) carries no panel
//! knowledge; [`recorder::RecordingInterface`] is a pure in-memory transport
//! used to exercise the controller.

pub mod color;
pub mod command;
pub mod constants;
pub mod driver;
pub mod interface;
pub mod laws;
pub mod recorder;
