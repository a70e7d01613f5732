//! Bootstrap core of a graphics application: a lifecycle state machine for
//! the single native window, and a bridge that decodes GPU validation-layer
//! diagnostics into structured log lines.

pub mod diagnostics;
pub mod lifecycle;
