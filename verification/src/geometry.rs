use vstd::prelude::*;

verus! {

/// The usable work area of one display, in screen coordinates: the display
/// bounds minus persistent shell furniture such as taskbars. It is queried
/// fresh for every placement — displays may change between calls — so nothing
/// here caches one.
#[derive(Clone, Copy, Debug, PartialEq, Eq)]
pub struct MonitorRect {
    pub left: i32,
    pub top: i32,
    pub right: i32,
    pub bottom: i32,
}

impl MonitorRect {
    /// A work area is usable when it is not inverted and its extents fit in
    /// `i32`, so that width and height can be computed without overflow.
    pub open spec fn well_formed(self) -> bool {
        &&& self.left <= self.right
        &&& self.top <= self.bottom
        &&& self.right - self.left <= i32::MAX
        &&& self.bottom - self.top <= i32::MAX
    }

    pub open spec fn spec_width(self) -> int {
        self.right - self.left
    }

    pub open spec fn spec_height(self) -> int {
        self.bottom - self.top
    }

    /// Builds a work area from the four raw coordinates a display query
    /// returned, rejecting a rectangle that is inverted or too large to
    /// measure.
    pub fn new(left: i32, top: i32, right: i32, bottom: i32) -> (r: Option<MonitorRect>)
        ensures
            r == (if (MonitorRect { left, top, right, bottom }).well_formed() {
                Some(MonitorRect { left, top, right, bottom })
            } else {
                None::<MonitorRect>
            }),
    {
        if left <= right && top <= bottom {
            let w: i64 = right as i64 - left as i64;
            let h: i64 = bottom as i64 - top as i64;
            if w <= i32::MAX as i64 && h <= i32::MAX as i64 {
                return Some(MonitorRect { left, top, right, bottom });
            }
        }
        None
    }

    pub fn width(&self) -> (w: i32)
        requires
            self.well_formed(),
        ensures
            w == self.spec_width(),
    {
        self.right - self.left
    }

    pub fn height(&self) -> (h: i32)
        requires
            self.well_formed(),
        ensures
            h == self.spec_height(),
    {
        self.bottom - self.top
    }
}

/// Division by two that rounds toward zero, as the machine's signed division
/// does; on a negative difference the centered coordinate keeps that rounding.
pub open spec fn div_toward_zero_by_two(n: int) -> int {
    if n >= 0 {
        n / 2
    } else {
        -((-n) / 2)
    }
}

/// The centering fallback: half the slack that the work-area extent leaves
/// around the window's declared size.
pub open spec fn spec_centered(extent: int, size: int) -> int {
    div_toward_zero_by_two(extent - size)
}

/// One target coordinate: an explicit value is used verbatim — no clamping
/// against the work area, by design — and an absent one falls back to
/// centering.
pub open spec fn spec_target_coord(extent: int, size: int, given: Option<i32>) -> int {
    match given {
        Some(v) => v as int,
        None => spec_centered(extent, size),
    }
}

/// Computes the centering fallback for one axis.
pub fn centered_coord(extent: i32, size: i32) -> (c: i32)
    requires
        0 <= extent,
        0 < size,
    ensures
        c == spec_centered(extent as int, size as int),
{
    let diff: i32 = extent - size;
    if diff >= 0 {
        diff / 2
    } else {
        -((-diff) / 2)
    }
}

/// Computes one target coordinate: the explicit value verbatim when given,
/// the centering fallback otherwise.
pub fn target_coord(extent: i32, size: i32, given: Option<i32>) -> (c: i32)
    requires
        0 <= extent,
        0 < size,
    ensures
        c == spec_target_coord(extent as int, size as int, given),
{
    match given {
        Some(v) => v,
        None => centered_coord(extent, size),
    }
}

/// Computes the window's target position against the work area — never the
/// full display bounds — from its declared logical size, not its actual
/// laid-out size.
pub fn target_position(
    area: &MonitorRect,
    width: i32,
    height: i32,
    x_pos: Option<i32>,
    y_pos: Option<i32>,
) -> (p: (i32, i32))
    requires
        area.well_formed(),
        0 < width,
        0 < height,
    ensures
        p.0 == spec_target_coord(area.spec_width(), width as int, x_pos),
        p.1 == spec_target_coord(area.spec_height(), height as int, y_pos),
{
    let x = target_coord(area.width(), width, x_pos);
    let y = target_coord(area.height(), height, y_pos);
    (x, y)
}

} // verus!
