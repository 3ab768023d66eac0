use websys_window::{
    DeviceId, Document, Element, ElementKind, ElementSelection, EventLoopWindowTarget,
    ExternalError, Icon, LogicalPosition, LogicalSize, NotImplementedError, NotSupportedError,
    PlatformSpecificWindowBuilderAttributes, Window, WindowAttributes,
};

fn styled_canvas_document() -> Document {
    Document {
        elements: vec![Element {
            id: Some("stage".to_string()),
            kind: ElementKind::Canvas,
            attached: true,
            parent: None,
            x: -7,
            y: 12,
            width: 320,
            height: 200,
            cursor: "auto".to_string(),
        }],
        viewport_width: 1920,
        viewport_height: 1080,
    }
}

fn styled_canvas_window(doc: &mut Document, target: &mut EventLoopWindowTarget) -> Window {
    Window::new(
        target,
        doc,
        WindowAttributes,
        PlatformSpecificWindowBuilderAttributes {
            element: ElementSelection::CanvasId("stage".to_string()),
        },
    )
    .unwrap()
}

#[test]
fn hidpi_factor_is_always_one() {
    let mut target = EventLoopWindowTarget { registered: vec![] };
    let mut doc = styled_canvas_document();
    let w = styled_canvas_window(&mut doc, &mut target);
    assert_eq!(w.hidpi_factor(), 1);
}

#[test]
fn outer_geometry_equals_inner_geometry() {
    let mut target = EventLoopWindowTarget { registered: vec![] };
    let mut doc = styled_canvas_document();
    let w = styled_canvas_window(&mut doc, &mut target);
    assert_eq!(w.outer_position(&doc), w.inner_position(&doc));
    assert_eq!(w.outer_size(&doc), w.inner_size(&doc));
    assert_eq!(w.inner_position(&doc), Ok(LogicalPosition { x: -7, y: 12 }));
    assert_eq!(w.inner_size(&doc), LogicalSize { width: 320, height: 200 });
}

#[test]
fn unoffered_mutators_report_not_implemented() {
    let mut target = EventLoopWindowTarget { registered: vec![] };
    let mut doc = styled_canvas_document();
    let w = styled_canvas_window(&mut doc, &mut target);
    assert_eq!(w.set_outer_position(LogicalPosition { x: 1, y: 2 }), Err(NotImplementedError));
    assert_eq!(w.set_inner_size(LogicalSize { width: 3, height: 4 }), Err(NotImplementedError));
    assert_eq!(w.set_min_inner_size(None), Err(NotImplementedError));
    assert_eq!(
        w.set_max_inner_size(Some(LogicalSize { width: 5, height: 6 })),
        Err(NotImplementedError)
    );
    assert_eq!(w.set_title("title"), Err(NotImplementedError));
    assert_eq!(w.set_visible(true), Err(NotImplementedError));
    assert_eq!(w.set_resizable(false), Err(NotImplementedError));
    assert_eq!(
        w.set_window_icon(Some(Icon { rgba: vec![0, 0, 0, 255], width: 1, height: 1 })),
        Err(NotImplementedError)
    );
}

#[test]
fn inert_no_ops_change_nothing_observable() {
    let mut target = EventLoopWindowTarget { registered: vec![] };
    let mut doc = styled_canvas_document();
    let w = styled_canvas_window(&mut doc, &mut target);
    w.set_maximized(true);
    w.set_fullscreen(Some(w.current_monitor()));
    w.set_decorations(false);
    w.set_always_on_top(true);
    w.set_ime_position(LogicalPosition { x: 9, y: 9 });
    assert_eq!(w.inner_position(&doc), Ok(LogicalPosition { x: -7, y: 12 }));
    assert_eq!(w.inner_size(&doc), LogicalSize { width: 320, height: 200 });
    assert_eq!(doc.elements.len(), 1);
}

#[test]
fn fullscreen_query_reports_not_fullscreen() {
    let mut target = EventLoopWindowTarget { registered: vec![] };
    let mut doc = styled_canvas_document();
    let w = styled_canvas_window(&mut doc, &mut target);
    assert!(w.fullscreen().is_none());
}

#[test]
fn cursor_position_and_grab_always_report_not_supported() {
    let mut target = EventLoopWindowTarget { registered: vec![] };
    let mut doc = styled_canvas_document();
    let w = styled_canvas_window(&mut doc, &mut target);
    assert_eq!(
        w.set_cursor_position(LogicalPosition { x: 10, y: 10 }),
        Err(ExternalError::NotSupported(NotSupportedError))
    );
    assert_eq!(
        w.set_cursor_grab(true),
        Err(ExternalError::NotSupported(NotSupportedError))
    );
    assert_eq!(
        w.set_cursor_grab(false),
        Err(ExternalError::NotSupported(NotSupportedError))
    );
}

#[test]
fn device_id_has_a_distinguished_no_device_value() {
    assert_eq!(DeviceId::dummy(), DeviceId(0));
    assert_eq!(DeviceId::dummy(), DeviceId::dummy());
}
