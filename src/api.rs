use vstd::prelude::*;

verus! {

/// Line cap code: the stroke ends flat at its end point.
pub const PF_LINE_CAP_BUTT: u8 = 0;

/// Line cap code: the stroke ends in a square past its end point.
pub const PF_LINE_CAP_SQUARE: u8 = 1;

/// Line cap code: the stroke ends in a half circle.
pub const PF_LINE_CAP_ROUND: u8 = 2;

/// Clear flag: the color buffer is cleared.
pub const PF_CLEAR_FLAGS_HAS_COLOR: u8 = 0x1;

/// Clear flag: the depth buffer is cleared.
pub const PF_CLEAR_FLAGS_HAS_DEPTH: u8 = 0x2;

/// Clear flag: the stencil buffer is cleared.
pub const PF_CLEAR_FLAGS_HAS_STENCIL: u8 = 0x4;

/// Clear flag: only the given rectangle is cleared.
pub const PF_CLEAR_FLAGS_HAS_RECT: u8 = 0x8;

/// A line cap as its native code.
pub type PFLineCap = u8;

/// A set of `PF_CLEAR_FLAGS_*` bits.
pub type PFClearFlags = u8;

/// An integer 2D vector.
#[derive(Clone, Copy, Debug, PartialEq, Eq, Structural)]
pub struct PFVector2I {
    pub x: i32,
    pub y: i32,
}

/// An integer rectangle, given by two corners.
#[derive(Clone, Copy, Debug, PartialEq, Eq, Structural)]
pub struct PFRectI {
    pub origin: PFVector2I,
    pub lower_right: PFVector2I,
}

/// Options for building and rendering a scene; none is read yet.
#[derive(Clone, Copy, Debug, PartialEq, Eq, Structural)]
pub struct PFRenderOptions {
    pub placeholder: u32,
}

/// How a stroke ends.
#[derive(Clone, Copy, Debug, PartialEq, Eq, Structural)]
pub enum LineCapKind {
    Butt,
    Square,
    Round,
}

/// The line cap that a native code stands for; an unknown code is a butt cap.
pub open spec fn line_cap_of(code: u8) -> LineCapKind {
    if code == PF_LINE_CAP_SQUARE {
        LineCapKind::Square
    } else if code == PF_LINE_CAP_ROUND {
        LineCapKind::Round
    } else {
        LineCapKind::Butt
    }
}

/// Decodes a native line cap code; an unknown code gives a butt cap.
pub fn line_cap_from_code(code: PFLineCap) -> (r: LineCapKind)
    ensures
        r == line_cap_of(code),
        code == PF_LINE_CAP_BUTT ==> r == LineCapKind::Butt,
        code == PF_LINE_CAP_SQUARE ==> r == LineCapKind::Square,
        code == PF_LINE_CAP_ROUND ==> r == LineCapKind::Round,
{
    match code {
        PF_LINE_CAP_SQUARE => LineCapKind::Square,
        PF_LINE_CAP_ROUND => LineCapKind::Round,
        _ => LineCapKind::Butt,
    }
}

/// Whether `flags` holds the bit `flag`.
pub open spec fn has_flag(flags: u8, flag: u8) -> bool {
    flags & flag != 0
}

/// Which parts of a clear request are in effect.
#[derive(Clone, Copy, Debug, PartialEq, Eq, Structural)]
pub struct ClearSelection {
    pub color: bool,
    pub depth: bool,
    pub stencil: bool,
    pub rect: bool,
}

/// Reads which parts of a clear request `flags` selects.
pub fn clear_selection(flags: PFClearFlags) -> (r: ClearSelection)
    ensures
        r.color == has_flag(flags, PF_CLEAR_FLAGS_HAS_COLOR),
        r.depth == has_flag(flags, PF_CLEAR_FLAGS_HAS_DEPTH),
        r.stencil == has_flag(flags, PF_CLEAR_FLAGS_HAS_STENCIL),
        r.rect == has_flag(flags, PF_CLEAR_FLAGS_HAS_RECT),
{
    ClearSelection {
        color: flags & PF_CLEAR_FLAGS_HAS_COLOR != 0,
        depth: flags & PF_CLEAR_FLAGS_HAS_DEPTH != 0,
        stencil: flags & PF_CLEAR_FLAGS_HAS_STENCIL != 0,
        rect: flags & PF_CLEAR_FLAGS_HAS_RECT != 0,
    }
}

/// The stencil value to clear to, where `flags` asks for it.
pub fn clear_stencil(flags: PFClearFlags, stencil: u8) -> (r: Option<u8>)
    ensures
        r == (if has_flag(flags, PF_CLEAR_FLAGS_HAS_STENCIL) {
            Some(stencil)
        } else {
            None
        }),
{
    if flags & PF_CLEAR_FLAGS_HAS_STENCIL != 0 {
        Some(stencil)
    } else {
        None
    }
}

/// The rectangle to clear, where `flags` limits the clear to one.
pub fn clear_rect(flags: PFClearFlags, rect: PFRectI) -> (r: Option<PFRectI>)
    ensures
        r == (if has_flag(flags, PF_CLEAR_FLAGS_HAS_RECT) {
            Some(rect)
        } else {
            None
        }),
{
    if flags & PF_CLEAR_FLAGS_HAS_RECT != 0 {
        Some(rect)
    } else {
        None
    }
}

} // verus!
