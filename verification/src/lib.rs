//! Bootstrap layer of a small real-time rendering application: the plan by
//! which a graphics instance is requested from the driver, and the state
//! machine that sequences window, context and per-frame callbacks.

pub mod application;
pub mod context;
pub mod device_api;
pub mod error;
