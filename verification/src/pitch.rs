use vstd::prelude::*;

use crate::num::abs_val;

verus! {

/// Scale between a frame index and the sweep numerator: the pitch formula
/// `base - |base - i / divisor|`, with `base = frame_count / 100` and the
/// divisor carried in milli-units, has the common denominator
/// `100 * divisor_milli`, and each frame step moves the numerator by
/// `100 * 1000`.
pub const TICK_PER_FRAME: i64 = 100_000;

/// One camera pitch angle, as the exact rational `num / den`.
#[derive(Clone, Copy, PartialEq, Eq, Structural, Debug)]
pub struct PitchAngle {
    pub num: i128,
    pub den: i128,
}

/// Maps a frame index to a camera pitch angle via a triangular
/// (rise-then-fall) sweep: `angle(i) = base - |base - i / divisor|`
/// with `base = frame_count / 100`.
#[derive(Clone, Copy, PartialEq, Eq, Structural, Debug)]
pub struct PitchSchedule {
    pub frame_count: u32,
    pub pitch_divisor_milli: u32,
}

impl PitchSchedule {
    pub open spec fn wf(self) -> bool {
        &&& self.frame_count > 0
        &&& self.pitch_divisor_milli > 0
    }

    /// Numerator of the sweep's peak value `base = frame_count / 100`,
    /// over the common denominator.
    pub open spec fn spec_peak_num(self) -> int {
        self.frame_count * self.pitch_divisor_milli
    }

    /// Common denominator of every angle in the sweep.
    pub open spec fn spec_den(self) -> int {
        100 * self.pitch_divisor_milli
    }

    /// Numerator of `angle(i) = base - |base - i / divisor|` over the
    /// common denominator.
    pub open spec fn spec_angle_num(self, i: int) -> int {
        self.spec_peak_num() - abs_val(self.spec_peak_num() - TICK_PER_FRAME * i)
    }

    pub fn new(frame_count: u32, pitch_divisor_milli: u32) -> (r: PitchSchedule)
        ensures
            r == (PitchSchedule { frame_count, pitch_divisor_milli }),
    {
        PitchSchedule { frame_count, pitch_divisor_milli }
    }

    /// The pitch angle of frame `i`, exactly.
    pub fn angle(&self, i: u32) -> (r: PitchAngle)
        requires
            self.wf(),
            i < self.frame_count,
        ensures
            r.num == self.spec_angle_num(i as int),
            r.den == self.spec_den(),
            r.den > 0,
    {
        let fc: i128 = self.frame_count as i128;
        let dv: i128 = self.pitch_divisor_milli as i128;
        proof {
            assert(fc * dv < 0x1_0000_0000_0000_0000) by (nonlinear_arith)
                requires
                    0 <= fc < 0x1_0000_0000,
                    0 <= dv < 0x1_0000_0000,
            ;
        }
        let peak: i128 = fc * dv;
        let tick: i128 = 100_000i128 * i as i128;
        proof {
            assert(tick == TICK_PER_FRAME * i);
        }
        let dist: i128 = if peak >= tick {
            peak - tick
        } else {
            tick - peak
        };
        PitchAngle { num: peak - dist, den: 100 * self.pitch_divisor_milli as i128 }
    }

    /// The whole sweep, in frame order.
    pub fn sweep(&self) -> (r: Vec<PitchAngle>)
        requires
            self.wf(),
        ensures
            r@.len() == self.frame_count,
            forall|k: int|
                0 <= k < self.frame_count ==> r@[k].num == self.spec_angle_num(k) && r@[k].den
                    == self.spec_den(),
    {
        let mut out: Vec<PitchAngle> = Vec::new();
        let mut i: u32 = 0;
        while i < self.frame_count
            invariant
                self.wf(),
                i <= self.frame_count,
                out@.len() == i,
                forall|k: int|
                    0 <= k < i ==> out@[k].num == self.spec_angle_num(k) && out@[k].den
                        == self.spec_den(),
            decreases self.frame_count - i,
        {
            let a = self.angle(i);
            out.push(a);
            i = i + 1;
        }
        out
    }
}

/// Sweep start law: the first frame of every well-formed schedule has
/// pitch exactly zero.
pub proof fn lemma_sweep_starts_at_zero(s: PitchSchedule)
    requires
        s.wf(),
    ensures
        s.spec_angle_num(0) == 0,
{
}

/// Triangular shape law, rising side: while the frame tick stays at or
/// below the peak, the angle strictly increases with the frame index.
pub proof fn lemma_sweep_rises(s: PitchSchedule, i: int, j: int)
    requires
        s.wf(),
        0 <= i < j,
        TICK_PER_FRAME * j <= s.spec_peak_num(),
    ensures
        s.spec_angle_num(i) < s.spec_angle_num(j),
{
    assert(TICK_PER_FRAME * i < TICK_PER_FRAME * j) by (nonlinear_arith)
        requires
            i < j,
    ;
}

/// Triangular shape law, falling side: once the frame tick is at or past
/// the peak, the angle strictly decreases with the frame index.
pub proof fn lemma_sweep_falls(s: PitchSchedule, i: int, j: int)
    requires
        s.wf(),
        s.spec_peak_num() <= TICK_PER_FRAME * i,
        i < j,
    ensures
        s.spec_angle_num(i) > s.spec_angle_num(j),
{
    assert(TICK_PER_FRAME * i < TICK_PER_FRAME * j) by (nonlinear_arith)
        requires
            i < j,
    ;
}

/// The sweep never exceeds its peak `base = frame_count / 100`.
pub proof fn lemma_sweep_peak_bound(s: PitchSchedule, i: int)
    requires
        s.wf(),
    ensures
        s.spec_angle_num(i) <= s.spec_peak_num(),
{
}

} // verus!
