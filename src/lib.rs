//! Dynamic error handling with a type-tagged error carrier, an ordered
//! dispatcher that recovers the concrete error, and the text side of an
//! append-only crash log.

pub mod carrier;
pub mod dispatch;
pub mod logger;
