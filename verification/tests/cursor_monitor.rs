use websys_window::cursor::cursor_style_keyword;
use websys_window::{
    CursorIcon, Document, Element, ElementKind, ElementSelection, EventLoopWindowTarget,
    MonitorHandle, PhysicalPosition, PhysicalSize, PlatformSpecificWindowBuilderAttributes,
    Window, WindowAttributes,
};

fn single_canvas_document() -> Document {
    Document {
        elements: vec![Element {
            id: Some("stage".to_string()),
            kind: ElementKind::Canvas,
            attached: true,
            parent: None,
            x: 0,
            y: 0,
            width: 640,
            height: 480,
            cursor: "auto".to_string(),
        }],
        viewport_width: 1366,
        viewport_height: 768,
    }
}

fn single_canvas_window(doc: &mut Document, target: &mut EventLoopWindowTarget) -> Window {
    Window::new(
        target,
        doc,
        WindowAttributes,
        PlatformSpecificWindowBuilderAttributes {
            element: ElementSelection::CanvasId("stage".to_string()),
        },
    )
    .unwrap()
}

fn all_cursor_icons() -> Vec<CursorIcon> {
    vec![
        CursorIcon::Default,
        CursorIcon::Crosshair,
        CursorIcon::Hand,
        CursorIcon::Arrow,
        CursorIcon::Move,
        CursorIcon::Text,
        CursorIcon::Wait,
        CursorIcon::Help,
        CursorIcon::Progress,
        CursorIcon::NotAllowed,
        CursorIcon::ContextMenu,
        CursorIcon::Cell,
        CursorIcon::VerticalText,
        CursorIcon::Alias,
        CursorIcon::Copy,
        CursorIcon::NoDrop,
        CursorIcon::Grab,
        CursorIcon::Grabbing,
        CursorIcon::AllScroll,
        CursorIcon::ZoomIn,
        CursorIcon::ZoomOut,
        CursorIcon::EResize,
        CursorIcon::NResize,
        CursorIcon::NeResize,
        CursorIcon::NwResize,
        CursorIcon::SResize,
        CursorIcon::SeResize,
        CursorIcon::SwResize,
        CursorIcon::WResize,
        CursorIcon::EwResize,
        CursorIcon::NsResize,
        CursorIcon::NeswResize,
        CursorIcon::NwseResize,
        CursorIcon::ColResize,
        CursorIcon::RowResize,
    ]
}

#[test]
fn every_cursor_icon_maps_to_a_non_empty_keyword() {
    for icon in all_cursor_icons() {
        assert!(!cursor_style_keyword(icon).is_empty());
    }
}

#[test]
fn unmapped_cursor_icons_fall_back_to_auto() {
    for icon in [
        CursorIcon::Default,
        CursorIcon::Arrow,
        CursorIcon::Grab,
        CursorIcon::Grabbing,
        CursorIcon::AllScroll,
        CursorIcon::ZoomIn,
        CursorIcon::ZoomOut,
    ] {
        assert_eq!(cursor_style_keyword(icon), "auto");
    }
}

#[test]
fn mapped_cursor_icons_use_their_host_keywords() {
    assert_eq!(cursor_style_keyword(CursorIcon::Crosshair), "crosshair");
    assert_eq!(cursor_style_keyword(CursorIcon::Hand), "pointer");
    assert_eq!(cursor_style_keyword(CursorIcon::NotAllowed), "not-allowed");
    assert_eq!(cursor_style_keyword(CursorIcon::VerticalText), "vertical-text");
    assert_eq!(cursor_style_keyword(CursorIcon::NeswResize), "nesw-resize");
    assert_eq!(cursor_style_keyword(CursorIcon::RowResize), "row-resize");
}

#[test]
fn set_cursor_icon_writes_the_keyword_to_the_surface_style() {
    let mut target = EventLoopWindowTarget { registered: vec![] };
    let mut doc = single_canvas_document();
    let w = single_canvas_window(&mut doc, &mut target);
    for icon in all_cursor_icons() {
        w.set_cursor_icon(&mut doc, icon);
        assert_eq!(doc.elements[w.canvas].cursor, cursor_style_keyword(icon));
    }
}

#[test]
fn cursor_visibility_keeps_the_documented_inverted_mapping() {
    let mut target = EventLoopWindowTarget { registered: vec![] };
    let mut doc = single_canvas_document();
    let w = single_canvas_window(&mut doc, &mut target);
    w.set_cursor_visible(&mut doc, true);
    assert_eq!(doc.elements[w.canvas].cursor, "none");
    w.set_cursor_visible(&mut doc, false);
    assert_eq!(doc.elements[w.canvas].cursor, "auto");
    w.set_cursor_visible(&mut doc, true);
    assert_eq!(doc.elements[w.canvas].cursor, "none");
}

#[test]
fn monitor_name_is_fixed() {
    assert_eq!(MonitorHandle.name(), Some("Browser Window".to_string()));
}

#[test]
fn monitor_dimensions_track_the_live_viewport() {
    let mut doc = single_canvas_document();
    let m = MonitorHandle;
    assert_eq!(m.dimensions(&doc), PhysicalSize { width: 1366, height: 768 });
    doc.viewport_width = 800;
    doc.viewport_height = 600;
    assert_eq!(m.dimensions(&doc), PhysicalSize { width: 800, height: 600 });
}

#[test]
fn monitor_position_is_the_origin_and_scale_is_one() {
    let m = MonitorHandle;
    assert_eq!(m.position(), PhysicalPosition { x: 0, y: 0 });
    assert_eq!(m.hidpi_factor(), 1);
}

#[test]
fn exactly_one_monitor_is_ever_reported() {
    let mut target = EventLoopWindowTarget { registered: vec![] };
    let mut doc = single_canvas_document();
    let w = single_canvas_window(&mut doc, &mut target);
    let all = w.available_monitors();
    assert_eq!(all.len(), 1);
    assert_eq!(all[0], MonitorHandle);
    assert_eq!(w.primary_monitor(), MonitorHandle);
    assert_eq!(w.current_monitor().inner, MonitorHandle);
}

#[test]
fn current_and_primary_monitor_agree() {
    let mut target = EventLoopWindowTarget { registered: vec![] };
    let mut doc = single_canvas_document();
    let w = single_canvas_window(&mut doc, &mut target);
    let current = w.current_monitor().inner;
    let primary = w.primary_monitor();
    assert_eq!(current.dimensions(&doc), primary.dimensions(&doc));
    assert_eq!(current.name(), primary.name());
}
