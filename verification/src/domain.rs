use vstd::prelude::*;

verus! {

/// Largest coordinate magnitude the library accepts, in milli-units.
/// Keeps every product taken during sampling inside `i64`.
pub const COORD_LIMIT_MILLI: i64 = 1_000_000_000;

/// One half-open axis range `[start, end)`, in milli-units.
#[derive(Clone, Copy, PartialEq, Eq, Structural, Debug)]
pub struct AxisRange {
    pub start_milli: i64,
    pub end_milli: i64,
}

impl AxisRange {
    /// A range is well formed when it is non-empty and within the
    /// coordinate limit.
    pub open spec fn wf(self) -> bool {
        &&& self.start_milli < self.end_milli
        &&& -COORD_LIMIT_MILLI <= self.start_milli
        &&& self.end_milli <= COORD_LIMIT_MILLI
    }

    pub fn new(start_milli: i64, end_milli: i64) -> (r: AxisRange)
        ensures
            r.start_milli == start_milli,
            r.end_milli == end_milli,
    {
        AxisRange { start_milli, end_milli }
    }

    pub fn is_wf(&self) -> (r: bool)
        ensures
            r == self.wf(),
    {
        self.start_milli < self.end_milli && -COORD_LIMIT_MILLI <= self.start_milli
            && self.end_milli <= COORD_LIMIT_MILLI
    }
}

/// The plotted volume: horizontal sampling plane `x`/`z` and the elevation
/// axis `y` bounding the height field's output.
#[derive(Clone, Copy, PartialEq, Eq, Structural, Debug)]
pub struct Domain {
    pub x_range: AxisRange,
    pub y_range: AxisRange,
    pub z_range: AxisRange,
}

impl Domain {
    pub open spec fn wf(self) -> bool {
        &&& self.x_range.wf()
        &&& self.y_range.wf()
        &&& self.z_range.wf()
    }

    pub fn new(x_range: AxisRange, y_range: AxisRange, z_range: AxisRange) -> (r: Domain)
        ensures
            r == (Domain { x_range, y_range, z_range }),
    {
        Domain { x_range, y_range, z_range }
    }
}

} // verus!
