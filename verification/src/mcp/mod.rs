//! The data of the Model Context Protocol that the time service speaks.

pub mod transport;
pub mod types;
