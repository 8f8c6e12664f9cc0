//! Touch-event pipeline of a board with a SPI panel and an I2C capacitive
//! touch controller: the bring-up sequence, the state shared between the
//! foreground and the interrupt handler, the handler's decisions, and the
//! text of every diagnostic line.
//!
//! The crate holds no hardware access. Each piece takes the outcome of a
//! hardware operation as a plain value and answers with the next operation
//! to perform or the lines to print.

pub mod event;
pub mod lines;
pub mod shared;
pub mod isr;
pub mod bringup;
