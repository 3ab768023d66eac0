//! The window abstraction: one drawable surface bound to an element of the
//! host document.
//!
//! Construction resolves or creates the surface per [`ElementSelection`],
//! registers it with the event-loop collaborator, and returns a [`Window`].
//! Thereafter, geometry queries read the surface's live bounding box, the
//! cursor calls write the surface's `cursor` style, and every capability the
//! environment lacks either degrades to an inert no-op or reports a typed
//! error — never silently misbehaving under the abstract, cross-backend API.

use vstd::prelude::*;
use std::collections::VecDeque;
use crate::cursor::{cursor_keyword, cursor_style_keyword, CursorIcon};
use crate::dom::{
    first_with_id, same_but_cursor, Document, Element, ElementKind, EventLoopWindowTarget,
};
use crate::dpi::{LogicalPosition, LogicalSize};
use crate::error::{CreationError, ExternalError, NotImplementedError, NotSupportedError};
use crate::monitor::{MonitorHandle, RootMonitorHandle};

verus! {

/// Identity of an input device.  A distinguished "no device" value exists.
#[derive(Debug, Copy, Clone, PartialEq, Eq, PartialOrd, Ord, Hash, Structural)]
pub struct DeviceId(pub u32);

impl DeviceId {
    /// The distinguished "no device" identity.
    pub fn dummy() -> (r: Self)
        ensures
            r == (DeviceId(0)),
    {
        DeviceId(0)
    }
}

/// How the window creator obtains the drawable surface: an existing surface
/// element named by identifier, or a container element named by identifier
/// into which a fresh surface is created.
#[derive(Debug, Clone, PartialEq, Eq)]
pub enum ElementSelection {
    CanvasId(String),
    ContainerId(String),
}

impl Default for ElementSelection {
    /// Defaults to selecting an existing surface under the empty identifier.
    fn default() -> (r: Self)
        ensures
            r matches ElementSelection::CanvasId(s) && s@ == Seq::<char>::empty(),
    {
        ElementSelection::CanvasId(String::new())
    }
}

/// Platform-specific attributes for window creation.
#[derive(Debug, Clone, PartialEq, Eq)]
pub struct PlatformSpecificWindowBuilderAttributes {
    pub element: ElementSelection,
}

impl Default for PlatformSpecificWindowBuilderAttributes {
    fn default() -> (r: Self)
        ensures
            r.element matches ElementSelection::CanvasId(s) && s@ == Seq::<char>::empty(),
    {
        PlatformSpecificWindowBuilderAttributes { element: ElementSelection::default() }
    }
}

/// The environment-agnostic attribute set handed to every backend's
/// constructor.  This backend accepts it for uniformity and reads none of
/// it: titles, decorations and the like have no realization here.
#[derive(Debug, Copy, Clone, PartialEq, Eq, Structural)]
pub struct WindowAttributes;

impl Default for WindowAttributes {
    fn default() -> (r: Self)
        ensures
            r == WindowAttributes,
    {
        WindowAttributes
    }
}

/// A window icon: raw pixel data other backends show in a title bar.  This
/// environment has no title bar to show it in.
#[derive(Debug, Clone, PartialEq, Eq)]
pub struct Icon {
    pub rgba: Vec<u8>,
    pub width: u32,
    pub height: u32,
}

/// Stable identity of a window.  This backend tracks a single logical
/// window, so one value serves; it is always equal to itself.
#[derive(Debug, Copy, Clone, PartialEq, Eq, PartialOrd, Ord, Hash, Structural)]
pub struct WindowId {}

impl WindowId {
    /// Returns the one window identity this backend uses.  It is equal to
    /// itself and to every future value returned here; nothing more is
    /// guaranteed of it.
    pub fn dummy() -> (r: Self)
        ensures
            r == (WindowId {  }),
    {
        WindowId {  }
    }
}

/// The element a fresh surface is created as: a detached-then-appended
/// canvas with no identifier, a default (empty) bounding box, and the
/// default cursor style.
pub open spec fn fresh_canvas(e: Element, parent: usize) -> bool {
    &&& e.id is None
    &&& e.kind == ElementKind::Canvas
    &&& e.attached
    &&& e.parent == Some(parent)
    &&& e.x == 0
    &&& e.y == 0
    &&& e.width == 0
    &&& e.height == 0
    &&& e.cursor@ == "auto"@
}

/// A live drawable surface and its pending-redraw state.
#[derive(Debug, PartialEq, Eq, Structural)]
pub struct Window {
    /// The surface element, as an index into the page model; bound at
    /// construction and never changed for the life of the window.
    pub canvas: usize,
    /// Whether a redraw has been requested and not yet honored.  The
    /// event-loop collaborator reads and clears this flag.
    pub redraw_requested: bool,
}

impl Window {
    /// Whether this window's surface is a valid drawable element of the
    /// given document.  Construction establishes it, and no document
    /// operation of this backend revokes it.
    pub open spec fn valid_for(self, doc: Document) -> bool {
        &&& self.canvas < doc.elements@.len()
        &&& doc.elements@[self.canvas as int].kind == ElementKind::Canvas
    }

    /// The window's surface element in the given document.
    pub open spec fn surface(self, doc: Document) -> Element {
        doc.elements@[self.canvas as int]
    }

    /// The top-left corner of the surface's bounding box, in logical
    /// pixels: what every position query of this backend reports.
    pub open spec fn position_spec(self, doc: Document) -> LogicalPosition {
        LogicalPosition { x: self.surface(doc).x, y: self.surface(doc).y }
    }

    /// The width and height of the surface's bounding box, in logical
    /// pixels: what every size query of this backend reports.
    pub open spec fn size_spec(self, doc: Document) -> LogicalSize {
        LogicalSize { width: self.surface(doc).width, height: self.surface(doc).height }
    }

    /// Creates a window bound to a drawable surface of `doc`, resolved per
    /// `ps_attr.element`, and registers the surface with the event-loop
    /// collaborator.
    ///
    /// Selecting an existing surface binds it and creates nothing.
    /// Selecting a container creates exactly one fresh surface and appends
    /// it to the container; a container that is not attached to the
    /// document cannot take the appended surface, which is the one
    /// recoverable failure.  A missing or ill-kinded element under a
    /// caller-supplied identifier is a precondition violation, reported as
    /// such with the document left untouched: no partial window exists
    /// after a failure.
    pub fn new(
        target: &mut EventLoopWindowTarget,
        doc: &mut Document,
        _attr: WindowAttributes,
        ps_attr: PlatformSpecificWindowBuilderAttributes,
    ) -> (r: Result<Window, CreationError>)
        ensures
            ({
                let elems = old(doc).elements@;
                match ps_attr.element {
                    ElementSelection::CanvasId(id) => match first_with_id(elems, id@) {
                        None => {
                            &&& r == Err::<Window, CreationError>(CreationError::CanvasNotFound)
                            &&& *final(doc) == *old(doc)
                            &&& *final(target) == *old(target)
                        },
                        Some(i) => {
                            &&& 0 <= i < elems.len()
                            &&& if elems[i].kind == ElementKind::Canvas {
                                &&& r matches Ok(w) && w.canvas == i && w.redraw_requested
                                    == false
                                &&& *final(doc) == *old(doc)
                                &&& final(target).registered@ == old(target).registered@.push(
                                    i as usize,
                                )
                            } else {
                                &&& r == Err::<Window, CreationError>(
                                    CreationError::ElementNotCanvas,
                                )
                                &&& *final(doc) == *old(doc)
                                &&& *final(target) == *old(target)
                            }
                        },
                    },
                    ElementSelection::ContainerId(id) => match first_with_id(elems, id@) {
                        None => {
                            &&& r == Err::<Window, CreationError>(CreationError::ContainerNotFound)
                            &&& *final(doc) == *old(doc)
                            &&& *final(target) == *old(target)
                        },
                        Some(i) => {
                            &&& 0 <= i < elems.len()
                            &&& if elems[i].attached {
                                &&& r matches Ok(w) && w.canvas == elems.len()
                                    && w.redraw_requested == false
                                &&& final(doc).elements@.len() == elems.len() + 1
                                &&& forall|j: int|
                                    0 <= j < elems.len() ==> final(doc).elements@[j] == elems[j]
                                &&& fresh_canvas(
                                    final(doc).elements@[elems.len() as int],
                                    i as usize,
                                )
                                &&& final(doc).viewport_width == old(doc).viewport_width
                                &&& final(doc).viewport_height == old(doc).viewport_height
                                &&& final(target).registered@ == old(target).registered@.push(
                                    elems.len() as usize,
                                )
                            } else {
                                &&& r == Err::<Window, CreationError>(CreationError::AppendFailed)
                                &&& *final(doc) == *old(doc)
                                &&& *final(target) == *old(target)
                            }
                        },
                    },
                }
            }),
    {
        match ps_attr.element {
            ElementSelection::CanvasId(id) => {
                match doc.element_by_id(&id) {
                    None => Err(CreationError::CanvasNotFound),
                    Some(i) => {
                        if doc.elements[i].kind == ElementKind::Canvas {
                            target.setup_window(i);
                            Ok(Window { canvas: i, redraw_requested: false })
                        } else {
                            Err(CreationError::ElementNotCanvas)
                        }
                    },
                }
            },
            ElementSelection::ContainerId(id) => {
                match doc.element_by_id(&id) {
                    None => Err(CreationError::ContainerNotFound),
                    Some(i) => {
                        if doc.elements[i].attached {
                            let idx: usize = doc.elements.len();
                            doc.elements.push(
                                Element {
                                    id: None,
                                    kind: ElementKind::Canvas,
                                    attached: true,
                                    parent: Some(i),
                                    x: 0,
                                    y: 0,
                                    width: 0,
                                    height: 0,
                                    cursor: "auto".to_owned(),
                                },
                            );
                            target.setup_window(idx);
                            Ok(Window { canvas: idx, redraw_requested: false })
                        } else {
                            Err(CreationError::AppendFailed)
                        }
                    },
                }
            },
        }
    }

    /// Returns the identifier of the window: the one identity this backend
    /// uses.
    pub fn id(&self) -> (r: WindowId)
        ensures
            r == (WindowId {  }),
    {
        WindowId::dummy()
    }

    /// Returns the scale factor mapping logical to physical pixels: fixed
    /// at 1 in this environment, so the two coordinate spaces coincide.
    pub fn hidpi_factor(&self) -> (r: u32)
        ensures
            r == 1,
    {
        1
    }

    /// Asks for a redraw of the surface.  The flag only moves towards
    /// "requested" here; the event-loop collaborator clears it once the
    /// redraw has been honored.
    pub fn request_redraw(&mut self)
        ensures
            final(self).canvas == old(self).canvas,
            final(self).redraw_requested == true,
    {
        self.redraw_requested = true;
    }
}

/// Position and size functions.
impl Window {
    /// Returns the top-left corner of the window's client area, in logical
    /// pixels: the surface's current bounding-box corner.
    pub fn inner_position(&self, doc: &Document) -> (r: Result<
        LogicalPosition,
        NotSupportedError,
    >)
        requires
            self.valid_for(*doc),
        ensures
            r == Ok::<LogicalPosition, NotSupportedError>(self.position_spec(*doc)),
    {
        Ok(LogicalPosition { x: doc.elements[self.canvas].x, y: doc.elements[self.canvas].y })
    }

    /// Returns the top-left corner of the window itself.  There are no
    /// decorations in this environment, so this is the client-area corner:
    /// the same value `inner_position` reports.
    pub fn outer_position(&self, doc: &Document) -> (r: Result<
        LogicalPosition,
        NotSupportedError,
    >)
        requires
            self.valid_for(*doc),
        ensures
            r == Ok::<LogicalPosition, NotSupportedError>(self.position_spec(*doc)),
    {
        self.inner_position(doc)
    }

    /// Moving the window is not offered by this backend.
    pub fn set_outer_position(&self, _position: LogicalPosition) -> (r: Result<
        (),
        NotImplementedError,
    >)
        ensures
            r == Err::<(), NotImplementedError>(NotImplementedError),
    {
        Err(NotImplementedError)
    }

    /// Returns the size of the window's client area, in logical pixels:
    /// the surface's current bounding-box size.
    pub fn inner_size(&self, doc: &Document) -> (r: LogicalSize)
        requires
            self.valid_for(*doc),
        ensures
            r == self.size_spec(*doc),
    {
        LogicalSize {
            width: doc.elements[self.canvas].width,
            height: doc.elements[self.canvas].height,
        }
    }

    /// Resizing the window is not offered by this backend.
    pub fn set_inner_size(&self, _size: LogicalSize) -> (r: Result<(), NotImplementedError>)
        ensures
            r == Err::<(), NotImplementedError>(NotImplementedError),
    {
        Err(NotImplementedError)
    }

    /// Returns the size of the window itself.  There are no decorations in
    /// this environment, so this is the client-area size: the same value
    /// `inner_size` reports.
    pub fn outer_size(&self, doc: &Document) -> (r: LogicalSize)
        requires
            self.valid_for(*doc),
        ensures
            r == self.size_spec(*doc),
    {
        self.inner_size(doc)
    }

    /// Constraining the minimum size is not offered by this backend.
    pub fn set_min_inner_size(&self, _dimensions: Option<LogicalSize>) -> (r: Result<
        (),
        NotImplementedError,
    >)
        ensures
            r == Err::<(), NotImplementedError>(NotImplementedError),
    {
        Err(NotImplementedError)
    }

    /// Constraining the maximum size is not offered by this backend.
    pub fn set_max_inner_size(&self, _dimensions: Option<LogicalSize>) -> (r: Result<
        (),
        NotImplementedError,
    >)
        ensures
            r == Err::<(), NotImplementedError>(NotImplementedError),
    {
        Err(NotImplementedError)
    }
}

/// Misc. attribute functions.
impl Window {
    /// Setting a title is not offered by this backend.
    pub fn set_title(&self, _title: &str) -> (r: Result<(), NotImplementedError>)
        ensures
            r == Err::<(), NotImplementedError>(NotImplementedError),
    {
        Err(NotImplementedError)
    }

    /// Changing visibility is not offered by this backend.
    pub fn set_visible(&self, _visible: bool) -> (r: Result<(), NotImplementedError>)
        ensures
            r == Err::<(), NotImplementedError>(NotImplementedError),
    {
        Err(NotImplementedError)
    }

    /// Changing resizability is not offered by this backend.
    pub fn set_resizable(&self, _resizable: bool) -> (r: Result<(), NotImplementedError>)
        ensures
            r == Err::<(), NotImplementedError>(NotImplementedError),
    {
        Err(NotImplementedError)
    }

    /// Maximization does not exist in this environment: an inert no-op.
    pub fn set_maximized(&self, _maximized: bool) {
    }

    /// Fullscreen does not exist in this environment: an inert no-op.
    pub fn set_fullscreen(&self, _monitor: Option<RootMonitorHandle>) {
    }

    /// Reports the fullscreen state: never fullscreen here.
    pub fn fullscreen(&self) -> (r: Option<RootMonitorHandle>)
        ensures
            r is None,
    {
        None
    }

    /// Decorations do not exist in this environment: an inert no-op.
    pub fn set_decorations(&self, _decorations: bool) {
    }

    /// Stacking order does not exist in this environment: an inert no-op.
    pub fn set_always_on_top(&self, _always_on_top: bool) {
    }

    /// Setting a window icon is not offered by this backend.
    pub fn set_window_icon(&self, _window_icon: Option<Icon>) -> (r: Result<
        (),
        NotImplementedError,
    >)
        ensures
            r == Err::<(), NotImplementedError>(NotImplementedError),
    {
        Err(NotImplementedError)
    }

    /// An IME candidate box does not exist in this environment: an inert
    /// no-op.
    pub fn set_ime_position(&self, _position: LogicalPosition) {
    }
}

/// Cursor functions.
impl Window {
    /// Writes the style keyword for `cursor` to the surface's `cursor`
    /// style property.  Total: every icon maps to a fixed, non-empty
    /// keyword, and icons without a dedicated keyword map to `"auto"`.
    pub fn set_cursor_icon(&self, doc: &mut Document, cursor: CursorIcon)
        requires
            self.valid_for(*old(doc)),
        ensures
            final(doc).elements@.len() == old(doc).elements@.len(),
            final(doc).elements@[self.canvas as int].cursor@ == cursor_keyword(cursor),
            same_but_cursor(
                final(doc).elements@[self.canvas as int],
                old(doc).elements@[self.canvas as int],
            ),
            forall|j: int|
                0 <= j < old(doc).elements@.len() && j != self.canvas as int
                    ==> final(doc).elements@[j] == old(doc).elements@[j],
            final(doc).viewport_width == old(doc).viewport_width,
            final(doc).viewport_height == old(doc).viewport_height,
    {
        let keyword = cursor_style_keyword(cursor);
        doc.elements[self.canvas].cursor = keyword.to_owned();
    }

    /// Positioning the cursor is not supported in this environment; the
    /// caller can detect that and route around it.
    pub fn set_cursor_position(&self, _position: LogicalPosition) -> (r: Result<(), ExternalError>)
        ensures
            r == Err::<(), ExternalError>(ExternalError::NotSupported(NotSupportedError)),
    {
        Err(ExternalError::NotSupported(NotSupportedError::new()))
    }

    /// Grabbing the cursor is not supported in this environment; the
    /// caller can detect that and route around it.
    pub fn set_cursor_grab(&self, _grab: bool) -> (r: Result<(), ExternalError>)
        ensures
            r == Err::<(), ExternalError>(ExternalError::NotSupported(NotSupportedError)),
    {
        Err(ExternalError::NotSupported(NotSupportedError::new()))
    }

    /// Writes the surface's `cursor` style: `"none"` when `visible` is
    /// true, `"auto"` when it is false.
    ///
    /// Note that this mapping is the inverse of what the parameter's name
    /// suggests.  Callers of this backend branch on the literal mapping,
    /// so it is kept exactly as documented rather than "fixed".
    pub fn set_cursor_visible(&self, doc: &mut Document, visible: bool)
        requires
            self.valid_for(*old(doc)),
        ensures
            final(doc).elements@.len() == old(doc).elements@.len(),
            final(doc).elements@[self.canvas as int].cursor@ == (if visible {
                "none"@
            } else {
                "auto"@
            }),
            same_but_cursor(
                final(doc).elements@[self.canvas as int],
                old(doc).elements@[self.canvas as int],
            ),
            forall|j: int|
                0 <= j < old(doc).elements@.len() && j != self.canvas as int
                    ==> final(doc).elements@[j] == old(doc).elements@[j],
            final(doc).viewport_width == old(doc).viewport_width,
            final(doc).viewport_height == old(doc).viewport_height,
    {
        if visible {
            doc.elements[self.canvas].cursor = "none".to_owned();
        } else {
            doc.elements[self.canvas].cursor = "auto".to_owned();
        }
    }
}

/// Monitor info functions.
impl Window {
    /// Returns the monitor the window resides on: the single virtual
    /// display of this environment.
    pub fn current_monitor(&self) -> (r: RootMonitorHandle)
        ensures
            r == (RootMonitorHandle { inner: MonitorHandle }),
    {
        RootMonitorHandle { inner: MonitorHandle }
    }

    /// Returns every monitor of the system: always exactly one handle, the
    /// single virtual display.
    pub fn available_monitors(&self) -> (r: VecDeque<MonitorHandle>)
        ensures
            r@.len() == 1,
            r@[0] == MonitorHandle,
    {
        let mut monitors: VecDeque<MonitorHandle> = VecDeque::new();
        monitors.push_back(MonitorHandle);
        monitors
    }

    /// Returns the primary monitor: the single virtual display, the same
    /// one every other monitor query reports.
    pub fn primary_monitor(&self) -> (r: MonitorHandle)
        ensures
            r == MonitorHandle,
    {
        MonitorHandle
    }
}

/// A window freshly created into a container reports the created surface's
/// default geometry: the empty bounding box at the origin, until styling
/// changes it.
pub proof fn lemma_fresh_canvas_default_geometry(w: Window, doc: Document, parent: usize)
    requires
        w.canvas < doc.elements@.len(),
        fresh_canvas(doc.elements@[w.canvas as int], parent),
    ensures
        w.valid_for(doc),
        w.size_spec(doc) == (LogicalSize { width: 0, height: 0 }),
        w.position_spec(doc) == (LogicalPosition { x: 0, y: 0 }),
{
}

} // verus!
