//! System and core statistics models.
//!
//! The system-stats schema carries a floating-point CPU usage figure and
//! therefore lives with the asynchronous shell; core stats are plain.

use vstd::prelude::*;

verus! {

/// Statistics of the panel's core.
#[derive(Clone, Debug)]
pub struct CoreStats {
    pub version: String,
    pub started: bool,
    pub logs_websocket: String,
}

} // verus!
