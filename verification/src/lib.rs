//! A bus-agnostic interface between display drivers and the transports that
//! carry their commands and pixel data.
//!
//! A display driver hands a [`DataFormat`] to a [`WriteOnlyDataCommand`] and
//! learns from the result whether the transfer went through. The interface is
//! the only thing the driver knows about the bus: SPI, I2C and parallel
//! transports all look the same from above.

pub mod byte_order;
pub mod error;
pub mod format;
pub mod interface;
pub mod recorder;

pub use error::DisplayError;
pub use format::{DataFormat, FormatKind};
pub use interface::{Mode, Transfer, WriteOnlyDataCommand};
