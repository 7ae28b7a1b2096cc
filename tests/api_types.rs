use pathfinder_unity::api::{
    clear_rect, clear_selection, clear_stencil, line_cap_from_code, ClearSelection, LineCapKind,
    PFRectI, PFRenderOptions, PFVector2I, PF_CLEAR_FLAGS_HAS_COLOR, PF_CLEAR_FLAGS_HAS_DEPTH,
    PF_CLEAR_FLAGS_HAS_RECT, PF_CLEAR_FLAGS_HAS_STENCIL, PF_LINE_CAP_BUTT, PF_LINE_CAP_ROUND,
    PF_LINE_CAP_SQUARE,
};

#[test]
fn line_cap_codes_decode() {
    assert_eq!(line_cap_from_code(PF_LINE_CAP_BUTT), LineCapKind::Butt);
    assert_eq!(line_cap_from_code(PF_LINE_CAP_SQUARE), LineCapKind::Square);
    assert_eq!(line_cap_from_code(PF_LINE_CAP_ROUND), LineCapKind::Round);
}

#[test]
fn unknown_line_cap_is_butt() {
    assert_eq!(line_cap_from_code(3), LineCapKind::Butt);
    assert_eq!(line_cap_from_code(255), LineCapKind::Butt);
}

#[test]
fn clear_flags_select_parts() {
    assert_eq!(
        clear_selection(0),
        ClearSelection { color: false, depth: false, stencil: false, rect: false }
    );
    assert_eq!(
        clear_selection(PF_CLEAR_FLAGS_HAS_COLOR | PF_CLEAR_FLAGS_HAS_STENCIL),
        ClearSelection { color: true, depth: false, stencil: true, rect: false }
    );
    assert_eq!(
        clear_selection(PF_CLEAR_FLAGS_HAS_DEPTH | PF_CLEAR_FLAGS_HAS_RECT | 0xf0),
        ClearSelection { color: false, depth: true, stencil: false, rect: true }
    );
    assert_eq!(
        clear_selection(0x0f),
        ClearSelection { color: true, depth: true, stencil: true, rect: true }
    );
}

#[test]
fn clear_stencil_follows_flag() {
    assert_eq!(clear_stencil(PF_CLEAR_FLAGS_HAS_STENCIL, 7), Some(7));
    assert_eq!(clear_stencil(PF_CLEAR_FLAGS_HAS_COLOR, 7), None);
}

#[test]
fn clear_rect_follows_flag() {
    let rect = PFRectI {
        origin: PFVector2I { x: 1, y: 2 },
        lower_right: PFVector2I { x: 30, y: 40 },
    };
    assert_eq!(clear_rect(PF_CLEAR_FLAGS_HAS_RECT, rect), Some(rect));
    assert_eq!(clear_rect(PF_CLEAR_FLAGS_HAS_DEPTH, rect), None);
}

#[test]
fn render_options_compare_by_field() {
    assert_eq!(PFRenderOptions { placeholder: 0 }, PFRenderOptions { placeholder: 0 });
    assert_ne!(PFRenderOptions { placeholder: 0 }, PFRenderOptions { placeholder: 1 });
}
