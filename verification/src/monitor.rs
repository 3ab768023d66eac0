//! The monitor subsystem.
//!
//! This environment has exactly one virtual display: the viewport.  A
//! [`MonitorHandle`] is a stateless descriptor of it; every query reads the
//! live viewport state, nothing is cached.

use vstd::prelude::*;
use crate::dom::Document;
use crate::dpi::{PhysicalPosition, PhysicalSize};

verus! {

/// A descriptor of the single virtual display of this environment.
#[derive(Debug, Copy, Clone, PartialEq, Eq, Structural)]
pub struct MonitorHandle;

/// The dimensions a monitor query reports at a given instant: the current
/// viewport size, never cached.
pub open spec fn monitor_dimensions(doc: Document) -> PhysicalSize {
    PhysicalSize { width: doc.viewport_width, height: doc.viewport_height }
}

impl MonitorHandle {
    /// Returns a human-readable name of the monitor.
    pub fn name(&self) -> (r: Option<String>)
        ensures
            r matches Some(s) && s@ == "Browser Window"@,
    {
        Some("Browser Window".to_owned())
    }

    /// Returns the monitor's resolution: the viewport size at this instant.
    pub fn dimensions(&self, doc: &Document) -> (r: PhysicalSize)
        ensures
            r == monitor_dimensions(*doc),
    {
        PhysicalSize { width: doc.viewport_width, height: doc.viewport_height }
    }

    /// Returns the top-left corner of the monitor relative to the full
    /// screen area: always the origin, there is no larger screen area here.
    pub fn position(&self) -> (r: PhysicalPosition)
        ensures
            r == (PhysicalPosition { x: 0, y: 0 }),
    {
        PhysicalPosition { x: 0, y: 0 }
    }

    /// Returns the scale factor mapping logical to physical pixels: fixed
    /// at 1, so the two coordinate spaces coincide numerically.
    pub fn hidpi_factor(&self) -> (r: u32)
        ensures
            r == 1,
    {
        1
    }
}

/// There is one virtual display: any two monitor handles are the same
/// handle, so the monitor reported as current and the one reported as
/// primary agree in every query made at the same instant.
pub proof fn lemma_single_monitor(a: MonitorHandle, b: MonitorHandle)
    ensures
        a == b,
{
}

/// A monitor handle as the environment-agnostic layer wraps it.
#[derive(Debug, Copy, Clone, PartialEq, Eq, Structural)]
pub struct RootMonitorHandle {
    pub inner: MonitorHandle,
}

} // verus!
