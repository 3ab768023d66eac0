//! Browser backend of a cross-platform windowing abstraction.
//!
//! A "window" here is a drawable surface bound to one element of a host
//! document.  The library holds the verified core: how a surface is resolved
//! or created from an [`ElementSelection`], how logical and physical
//! coordinates relate under the fixed scale factor of 1, which capabilities
//! are honestly supported, which degrade to inert no-ops, and which report a
//! typed "not supported" or "not implemented" error.
//!
//! The host document and viewport are modelled by [`dom::Document`], a plain
//! value holding exactly what this backend reads and writes of the page:
//! element identifiers, kinds, attachment, bounding boxes, the `cursor` style
//! property, and the viewport size.  Code that talks to a real browser
//! converts between that model and the live page at the boundary.

pub mod cursor;
pub mod dom;
pub mod dpi;
pub mod error;
pub mod monitor;
pub mod window;

pub use cursor::CursorIcon;
pub use dom::{Document, Element, ElementKind, EventLoopWindowTarget};
pub use dpi::{LogicalPosition, LogicalSize, PhysicalPosition, PhysicalSize};
pub use error::{CreationError, ExternalError, NotImplementedError, NotSupportedError};
pub use monitor::{MonitorHandle, RootMonitorHandle};
pub use window::{
    DeviceId, ElementSelection, Icon, PlatformSpecificWindowBuilderAttributes, Window,
    WindowAttributes, WindowId,
};
