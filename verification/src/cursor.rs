//! The cursor-icon vocabulary of the abstract API and its mapping onto the
//! host's `cursor` style keywords.
//!
//! The mapping is total: every variant yields a fixed, non-empty keyword,
//! and the variants with no dedicated host keyword fall back to `"auto"`.

use vstd::prelude::*;

verus! {

/// The cursor icons an application can ask for, shared across backends.
#[derive(Debug, Copy, Clone, PartialEq, Eq, Structural)]
pub enum CursorIcon {
    Default,
    Crosshair,
    Hand,
    Arrow,
    Move,
    Text,
    Wait,
    Help,
    Progress,
    NotAllowed,
    ContextMenu,
    Cell,
    VerticalText,
    Alias,
    Copy,
    NoDrop,
    Grab,
    Grabbing,
    AllScroll,
    ZoomIn,
    ZoomOut,
    EResize,
    NResize,
    NeResize,
    NwResize,
    SResize,
    SeResize,
    SwResize,
    WResize,
    EwResize,
    NsResize,
    NeswResize,
    NwseResize,
    ColResize,
    RowResize,
}

/// The host style keyword each icon maps to.
pub open spec fn cursor_keyword(cursor: CursorIcon) -> Seq<char> {
    match cursor {
        CursorIcon::Crosshair => "crosshair"@,
        CursorIcon::Hand => "pointer"@,
        CursorIcon::Move => "move"@,
        CursorIcon::Text => "text"@,
        CursorIcon::Wait => "wait"@,
        CursorIcon::Help => "help"@,
        CursorIcon::Progress => "progress"@,
        CursorIcon::NotAllowed => "not-allowed"@,
        CursorIcon::ContextMenu => "context-menu"@,
        CursorIcon::Cell => "cell"@,
        CursorIcon::VerticalText => "vertical-text"@,
        CursorIcon::Alias => "alias"@,
        CursorIcon::Copy => "copy"@,
        CursorIcon::NoDrop => "no-drop"@,
        CursorIcon::EResize => "e-resize"@,
        CursorIcon::NResize => "n-resize"@,
        CursorIcon::NeResize => "ne-resize"@,
        CursorIcon::NwResize => "nw-resize"@,
        CursorIcon::SResize => "s-resize"@,
        CursorIcon::SeResize => "se-resize"@,
        CursorIcon::SwResize => "sw-resize"@,
        CursorIcon::WResize => "w-resize"@,
        CursorIcon::EwResize => "ew-resize"@,
        CursorIcon::NsResize => "ns-resize"@,
        CursorIcon::NeswResize => "nesw-resize"@,
        CursorIcon::NwseResize => "nwse-resize"@,
        CursorIcon::ColResize => "col-resize"@,
        CursorIcon::RowResize => "row-resize"@,
        _ => "auto"@,
    }
}

/// Whether an icon has no dedicated host keyword and falls back to `"auto"`.
pub open spec fn falls_back_to_auto(cursor: CursorIcon) -> bool {
    match cursor {
        CursorIcon::Default => true,
        CursorIcon::Arrow => true,
        CursorIcon::Grab => true,
        CursorIcon::Grabbing => true,
        CursorIcon::AllScroll => true,
        CursorIcon::ZoomIn => true,
        CursorIcon::ZoomOut => true,
        _ => false,
    }
}

/// The cursor mapping is total: every icon maps to a non-empty keyword, and
/// exactly the icons without a dedicated keyword map to `"auto"`.
pub proof fn lemma_cursor_keyword_total()
    ensures
        forall|cursor: CursorIcon| (#[trigger] cursor_keyword(cursor)).len() > 0,
        forall|cursor: CursorIcon|
            falls_back_to_auto(cursor) ==> #[trigger] cursor_keyword(cursor) == "auto"@,
{
    reveal_strlit("crosshair");
    reveal_strlit("pointer");
    reveal_strlit("move");
    reveal_strlit("text");
    reveal_strlit("wait");
    reveal_strlit("help");
    reveal_strlit("progress");
    reveal_strlit("not-allowed");
    reveal_strlit("context-menu");
    reveal_strlit("cell");
    reveal_strlit("vertical-text");
    reveal_strlit("alias");
    reveal_strlit("copy");
    reveal_strlit("no-drop");
    reveal_strlit("e-resize");
    reveal_strlit("n-resize");
    reveal_strlit("ne-resize");
    reveal_strlit("nw-resize");
    reveal_strlit("s-resize");
    reveal_strlit("se-resize");
    reveal_strlit("sw-resize");
    reveal_strlit("w-resize");
    reveal_strlit("ew-resize");
    reveal_strlit("ns-resize");
    reveal_strlit("nesw-resize");
    reveal_strlit("nwse-resize");
    reveal_strlit("col-resize");
    reveal_strlit("row-resize");
    reveal_strlit("auto");
}

/// The keyword written to the host's `cursor` style property for an icon.
pub fn cursor_style_keyword(cursor: CursorIcon) -> (r: &'static str)
    ensures
        r@ == cursor_keyword(cursor),
{
    match cursor {
        CursorIcon::Crosshair => "crosshair",
        CursorIcon::Hand => "pointer",
        CursorIcon::Move => "move",
        CursorIcon::Text => "text",
        CursorIcon::Wait => "wait",
        CursorIcon::Help => "help",
        CursorIcon::Progress => "progress",
        CursorIcon::NotAllowed => "not-allowed",
        CursorIcon::ContextMenu => "context-menu",
        CursorIcon::Cell => "cell",
        CursorIcon::VerticalText => "vertical-text",
        CursorIcon::Alias => "alias",
        CursorIcon::Copy => "copy",
        CursorIcon::NoDrop => "no-drop",
        CursorIcon::EResize => "e-resize",
        CursorIcon::NResize => "n-resize",
        CursorIcon::NeResize => "ne-resize",
        CursorIcon::NwResize => "nw-resize",
        CursorIcon::SResize => "s-resize",
        CursorIcon::SeResize => "se-resize",
        CursorIcon::SwResize => "sw-resize",
        CursorIcon::WResize => "w-resize",
        CursorIcon::EwResize => "ew-resize",
        CursorIcon::NsResize => "ns-resize",
        CursorIcon::NeswResize => "nesw-resize",
        CursorIcon::NwseResize => "nwse-resize",
        CursorIcon::ColResize => "col-resize",
        CursorIcon::RowResize => "row-resize",
        _ => "auto",
    }
}

} // verus!
