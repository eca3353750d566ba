//! Health-monitoring engine: the per-target probe protocol, the health state
//! machine with transition detection, the latest-snapshot store and the
//! notification fan-out, and the status view's filtering and ordering, each
//! stated and proved against a mathematical model.

pub mod settings;
pub mod model;
pub mod error;
pub mod text;
pub mod keyed;
pub mod probe;
pub mod notification;
pub mod state;
pub mod monitoring;
pub mod service;
pub mod http;
pub mod dashboard;
