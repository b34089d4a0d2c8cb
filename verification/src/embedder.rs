use vstd::prelude::*;
use crate::geometry::{spec_target_coord, target_position, MonitorRect};
use crate::handles::{resolve_native_handle, spec_resolve, HandleError, NativeWindowHandle,
    SurfaceProbe};

verus! {

/// Extended-style bit: the window never takes input focus when shown or
/// clicked.
pub const EX_STYLE_NO_ACTIVATE: u32 = 0x0800_0000;

/// Extended-style bit: the window is a utility/tool surface, excluded from
/// normal task switching.
pub const EX_STYLE_TOOL_WINDOW: u32 = 0x0000_0080;

/// The two widget bits ORed into an existing extended style. Unrelated bits
/// are never replaced; `lemma_widget_ex_style_preserves_unrelated` proves it.
pub open spec fn widget_ex_style(ex_style: u32) -> u32 {
    ex_style | EX_STYLE_NO_ACTIVATE | EX_STYLE_TOOL_WINDOW
}

/// Computes the new extended style for a window being embedded: the current
/// value with the no-activate and tool-window bits ORed in.
pub fn apply_widget_ex_style(ex_style: u32) -> (r: u32)
    ensures
        r == widget_ex_style(ex_style),
{
    ex_style | EX_STYLE_NO_ACTIVATE | EX_STYLE_TOOL_WINDOW
}

/// The plan for the two style and position writes of one embedding: which
/// window, and the absolute target rectangle. The z-order target (bottom of
/// the stack), the no-activate flag and the show flag are fixed parts of the
/// protocol and carry no data.
#[derive(Clone, Copy, Debug, PartialEq, Eq)]
pub struct WindowPlacement {
    pub handle: NativeWindowHandle,
    pub x: i32,
    pub y: i32,
    pub width: i32,
    pub height: i32,
}

/// The outcome of one embedding attempt. A failure carries no placement, so
/// no window mutation can follow from it.
#[derive(Clone, Copy, Debug, PartialEq, Eq)]
pub enum EmbeddingResult {
    Embedded(WindowPlacement),
    Failed(HandleError),
}

/// The window-side state that an embedding writes: the extended style word,
/// the window rectangle, and whether the window sits at the bottom of the
/// z-order and is shown. The surrounding program mirrors each field with the
/// corresponding platform call.
#[derive(Clone, Copy, Debug, PartialEq, Eq)]
pub struct WindowOsState {
    pub ex_style: u32,
    pub x: i32,
    pub y: i32,
    pub width: i32,
    pub height: i32,
    pub at_bottom: bool,
    pub shown: bool,
}

/// What one embedding, given a surface probe and the work area, decides: a
/// failure straight from handle resolution, or a placement at the target
/// position with the declared size.
pub open spec fn spec_embed(
    probe: SurfaceProbe,
    area: MonitorRect,
    width: i32,
    height: i32,
    x_pos: Option<i32>,
    y_pos: Option<i32>,
) -> EmbeddingResult {
    match spec_resolve(probe) {
        Err(e) => EmbeddingResult::Failed(e),
        Ok(handle) => EmbeddingResult::Embedded(
            WindowPlacement {
                handle,
                x: spec_target_coord(area.spec_width(), width as int, x_pos) as i32,
                y: spec_target_coord(area.spec_height(), height as int, y_pos) as i32,
                width,
                height,
            },
        ),
    }
}

/// How applying a placement changes the window-side state: the two widget
/// bits are ORed into the style — before the position call, since the
/// platform re-evaluates z-order eligibility from the style at that moment —
/// and the rectangle, bottom z-order and shown flag are then set absolutely
/// in one call.
pub open spec fn spec_apply_placement(state: WindowOsState, placement: WindowPlacement)
    -> WindowOsState {
    WindowOsState {
        ex_style: widget_ex_style(state.ex_style),
        x: placement.x,
        y: placement.y,
        width: placement.width,
        height: placement.height,
        at_bottom: true,
        shown: true,
    }
}

/// Plans one embedding: resolves the handle from the probe and computes the
/// target rectangle against the work area. On a resolution failure the
/// attempt is abandoned with that error and no placement — the later style
/// and position steps are never reached.
pub fn set_as_desktop_widget(
    probe: SurfaceProbe,
    area: MonitorRect,
    window_width: i32,
    window_height: i32,
    x_pos: Option<i32>,
    y_pos: Option<i32>,
) -> (r: EmbeddingResult)
    requires
        area.well_formed(),
        0 < window_width,
        0 < window_height,
    ensures
        r == spec_embed(probe, area, window_width, window_height, x_pos, y_pos),
        r is Failed <==> spec_resolve(probe) is Err,
{
    match resolve_native_handle(probe) {
        Err(e) => EmbeddingResult::Failed(e),
        Ok(handle) => {
            let (x, y) = target_position(&area, window_width, window_height, x_pos, y_pos);
            EmbeddingResult::Embedded(
                WindowPlacement { handle, x, y, width: window_width, height: window_height },
            )
        },
    }
}

/// Applies a placement to the window-side state: the style OR, then the
/// atomic move-resize-reorder-show.
pub fn apply_placement(state: &mut WindowOsState, placement: &WindowPlacement)
    ensures
        *final(state) == spec_apply_placement(*old(state), *placement),
{
    state.ex_style = apply_widget_ex_style(state.ex_style);
    state.x = placement.x;
    state.y = placement.y;
    state.width = placement.width;
    state.height = placement.height;
    state.at_bottom = true;
    state.shown = true;
}

/// Runs one embedding attempt against the window-side state: on success the
/// placement is applied; on failure the state is left untouched — a failed
/// resolution causes no partial mutation.
pub fn embed_window(
    state: &mut WindowOsState,
    probe: SurfaceProbe,
    area: MonitorRect,
    window_width: i32,
    window_height: i32,
    x_pos: Option<i32>,
    y_pos: Option<i32>,
) -> (r: EmbeddingResult)
    requires
        area.well_formed(),
        0 < window_width,
        0 < window_height,
    ensures
        r == spec_embed(probe, area, window_width, window_height, x_pos, y_pos),
        r is Failed ==> *final(state) == *old(state),
        r matches EmbeddingResult::Embedded(p) ==> *final(state) == spec_apply_placement(
            *old(state),
            p,
        ),
{
    let result = set_as_desktop_widget(probe, area, window_width, window_height, x_pos, y_pos);
    match result {
        EmbeddingResult::Embedded(placement) => {
            apply_placement(state, &placement);
            EmbeddingResult::Embedded(placement)
        },
        EmbeddingResult::Failed(e) => EmbeddingResult::Failed(e),
    }
}

/// ORing the widget bits in twice gives the same style word as once.
pub proof fn lemma_widget_ex_style_idempotent(ex_style: u32)
    ensures
        widget_ex_style(widget_ex_style(ex_style)) == widget_ex_style(ex_style),
{
    assert(((ex_style | EX_STYLE_NO_ACTIVATE | EX_STYLE_TOOL_WINDOW) | EX_STYLE_NO_ACTIVATE
        | EX_STYLE_TOOL_WINDOW) == (ex_style | EX_STYLE_NO_ACTIVATE | EX_STYLE_TOOL_WINDOW))
        by (bit_vector);
}

/// The style write only adds the two widget bits: every unrelated bit keeps
/// its value, and both widget bits are set afterwards.
pub proof fn lemma_widget_ex_style_preserves_unrelated(ex_style: u32)
    ensures
        widget_ex_style(ex_style) & !(EX_STYLE_NO_ACTIVATE | EX_STYLE_TOOL_WINDOW) == ex_style & !(
        EX_STYLE_NO_ACTIVATE | EX_STYLE_TOOL_WINDOW),
        widget_ex_style(ex_style) & (EX_STYLE_NO_ACTIVATE | EX_STYLE_TOOL_WINDOW) == (
        EX_STYLE_NO_ACTIVATE | EX_STYLE_TOOL_WINDOW),
{
    assert((ex_style | EX_STYLE_NO_ACTIVATE | EX_STYLE_TOOL_WINDOW) & !(EX_STYLE_NO_ACTIVATE
        | EX_STYLE_TOOL_WINDOW) == ex_style & !(EX_STYLE_NO_ACTIVATE | EX_STYLE_TOOL_WINDOW))
        by (bit_vector);
    assert((ex_style | EX_STYLE_NO_ACTIVATE | EX_STYLE_TOOL_WINDOW) & (EX_STYLE_NO_ACTIVATE
        | EX_STYLE_TOOL_WINDOW) == (EX_STYLE_NO_ACTIVATE | EX_STYLE_TOOL_WINDOW)) by (bit_vector);
}

/// Applying one placement twice leaves the window-side state exactly as
/// applying it once does: the style OR is idempotent and the position is
/// assigned absolutely.
pub proof fn lemma_apply_placement_idempotent(state: WindowOsState, placement: WindowPlacement)
    ensures
        spec_apply_placement(spec_apply_placement(state, placement), placement)
            == spec_apply_placement(state, placement),
{
    lemma_widget_ex_style_idempotent(state.ex_style);
}

/// Embedding the same window twice with the same arguments converges: when
/// the attempt plans a placement, re-applying that placement changes nothing
/// the first application did not already establish.
pub proof fn lemma_embed_idempotent(
    state: WindowOsState,
    probe: SurfaceProbe,
    area: MonitorRect,
    width: i32,
    height: i32,
    x_pos: Option<i32>,
    y_pos: Option<i32>,
)
    ensures
        spec_embed(probe, area, width, height, x_pos, y_pos) matches EmbeddingResult::Embedded(p)
            ==> spec_apply_placement(spec_apply_placement(state, p), p) == spec_apply_placement(
            state,
            p,
        ),
{
    lemma_widget_ex_style_idempotent(state.ex_style);
}

} // verus!
