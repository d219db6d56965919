use vstd::prelude::*;

use crate::domain::COORD_LIMIT_MILLI;
use crate::num::div_tz;
use crate::num::div_trunc;
use crate::rng::JobRng;

verus! {

/// Largest oscillator magnitude the composition accepts, in milli-units.
/// A periodic oscillator `sin + sin` stays within two units and gradient
/// noise within one; the limit leaves generous slack while keeping the
/// amplitude division inside `i64`.
pub const OSC_LIMIT_MILLI: i64 = 1_000_000;

/// Why a height field was rejected.
#[derive(Clone, Copy, PartialEq, Eq, Structural, Debug)]
pub enum FieldError {
    BaselineOutOfBounds,
    NonPositiveWavelength,
    NonPositiveAmplitudeDivisor,
}

/// A pure mapping from a horizontal coordinate pair to an elevation,
/// in milli-units. The oscillating variants owe their shape to a
/// transcendental oscillator (a sine sum, or seeded coherent gradient
/// noise) that is evaluated outside and composed here.
#[derive(Clone, Copy, PartialEq, Eq, Structural, Debug)]
pub enum HeightField {
    /// The baseline elevation everywhere.
    Flat { baseline_milli: i64 },
    /// Baseline plus an independent uniform draw from `[0, 1)` per
    /// evaluation; not reproducible across evaluations.
    StochasticFlat { baseline_milli: i64 },
    /// Baseline plus `(sin(x / wavelength) + sin(z / wavelength))`
    /// dampened by the amplitude divisor.
    Periodic { baseline_milli: i64, wavelength_milli: i64, amplitude_divisor_milli: i64 },
    /// Baseline plus seeded 2-D gradient noise of the scaled coordinates,
    /// dampened by the amplitude divisor.
    CoherentNoise {
        baseline_milli: i64,
        wavelength_milli: i64,
        amplitude_divisor_milli: i64,
        seed: u32,
    },
}

impl HeightField {
    pub open spec fn spec_baseline(self) -> i64 {
        match self {
            HeightField::Flat { baseline_milli } => baseline_milli,
            HeightField::StochasticFlat { baseline_milli } => baseline_milli,
            HeightField::Periodic { baseline_milli, .. } => baseline_milli,
            HeightField::CoherentNoise { baseline_milli, .. } => baseline_milli,
        }
    }

    /// Whether the variant composes an outside oscillator sample.
    pub open spec fn spec_has_oscillator(self) -> bool {
        self is Periodic || self is CoherentNoise
    }

    /// Whether repeated evaluation at fixed inputs is bit-identical.
    pub open spec fn spec_is_deterministic(self) -> bool {
        !(self is StochasticFlat)
    }

    pub open spec fn spec_wavelength(self) -> i64 {
        match self {
            HeightField::Periodic { wavelength_milli, .. } => wavelength_milli,
            HeightField::CoherentNoise { wavelength_milli, .. } => wavelength_milli,
            _ => 0,
        }
    }

    pub open spec fn spec_amplitude_divisor(self) -> i64 {
        match self {
            HeightField::Periodic { amplitude_divisor_milli, .. } => amplitude_divisor_milli,
            HeightField::CoherentNoise { amplitude_divisor_milli, .. } => amplitude_divisor_milli,
            _ => 0,
        }
    }

    /// A field is well formed when its baseline is within the coordinate
    /// limit and, for the oscillating variants, wavelength and amplitude
    /// divisor are positive: a zero value of either is a caller error
    /// (a division by zero) and is rejected before use.
    pub open spec fn wf(self) -> bool {
        &&& -COORD_LIMIT_MILLI <= self.spec_baseline() <= COORD_LIMIT_MILLI
        &&& self.spec_has_oscillator() ==> 0 < self.spec_wavelength() <= COORD_LIMIT_MILLI && 0
            < self.spec_amplitude_divisor() <= COORD_LIMIT_MILLI
    }

    /// Rejects ill-formed fields before rendering, each fault under its
    /// own error.
    pub fn validate(&self) -> (r: Result<(), FieldError>)
        ensures
            r is Ok <==> self.wf(),
            !(-COORD_LIMIT_MILLI <= self.spec_baseline() <= COORD_LIMIT_MILLI) ==> r == Err::<
                (),
                FieldError,
            >(FieldError::BaselineOutOfBounds),
            (-COORD_LIMIT_MILLI <= self.spec_baseline() <= COORD_LIMIT_MILLI)
                && self.spec_has_oscillator() && !(0 < self.spec_wavelength()
                <= COORD_LIMIT_MILLI) ==> r == Err::<(), FieldError>(
                FieldError::NonPositiveWavelength,
            ),
            (-COORD_LIMIT_MILLI <= self.spec_baseline() <= COORD_LIMIT_MILLI)
                && self.spec_has_oscillator() && (0 < self.spec_wavelength() <= COORD_LIMIT_MILLI)
                && !(0 < self.spec_amplitude_divisor() <= COORD_LIMIT_MILLI) ==> r == Err::<
                (),
                FieldError,
            >(FieldError::NonPositiveAmplitudeDivisor),
    {
        let baseline = self.baseline();
        if baseline < -COORD_LIMIT_MILLI || baseline > COORD_LIMIT_MILLI {
            return Err(FieldError::BaselineOutOfBounds);
        }
        match *self {
            HeightField::Periodic { wavelength_milli, amplitude_divisor_milli, .. }
            | HeightField::CoherentNoise { wavelength_milli, amplitude_divisor_milli, .. } => {
                if wavelength_milli <= 0 || wavelength_milli > COORD_LIMIT_MILLI {
                    Err(FieldError::NonPositiveWavelength)
                } else if amplitude_divisor_milli <= 0 || amplitude_divisor_milli
                    > COORD_LIMIT_MILLI {
                    Err(FieldError::NonPositiveAmplitudeDivisor)
                } else {
                    Ok(())
                }
            },
            _ => Ok(()),
        }
    }

    pub fn baseline(&self) -> (r: i64)
        ensures
            r == self.spec_baseline(),
    {
        match *self {
            HeightField::Flat { baseline_milli } => baseline_milli,
            HeightField::StochasticFlat { baseline_milli } => baseline_milli,
            HeightField::Periodic { baseline_milli, .. } => baseline_milli,
            HeightField::CoherentNoise { baseline_milli, .. } => baseline_milli,
        }
    }

    pub fn is_deterministic(&self) -> (r: bool)
        ensures
            r == self.spec_is_deterministic(),
    {
        !matches!(*self, HeightField::StochasticFlat { .. })
    }

    pub fn has_oscillator(&self) -> (r: bool)
        ensures
            r == self.spec_has_oscillator(),
    {
        matches!(*self, HeightField::Periodic { .. } | HeightField::CoherentNoise { .. })
    }

    /// The composed elevation: baseline plus the oscillator sample dampened
    /// by the amplitude divisor, truncated toward zero as the reference
    /// arithmetic truncates.
    pub open spec fn spec_compose(self, osc_milli: i64) -> int {
        self.spec_baseline() + div_tz(osc_milli * 1000, self.spec_amplitude_divisor() as int)
    }

    /// The flat elevation: exactly the baseline, always.
    pub fn flat_elevation(&self) -> (y: i64)
        requires
            self is Flat,
        ensures
            y == self.spec_baseline(),
    {
        self.baseline()
    }

    /// The stochastic-flat elevation: the baseline plus one fresh uniform
    /// draw from `[0, 1)`; every outcome lies in `[baseline, baseline + 1)`.
    pub fn stochastic_elevation(&self, rng: &mut JobRng) -> (y: i64)
        requires
            self is StochasticFlat,
            self.wf(),
        ensures
            self.spec_baseline() <= y < self.spec_baseline() + 1000,
    {
        let draw = rng.next_unit_milli();
        self.baseline() + draw as i64
    }

    /// Composes one outside oscillator sample into an elevation.
    pub fn compose(&self, osc_milli: i64) -> (y: i64)
        requires
            self.wf(),
            self.spec_has_oscillator(),
            -OSC_LIMIT_MILLI <= osc_milli <= OSC_LIMIT_MILLI,
        ensures
            y == self.spec_compose(osc_milli),
    {
        let amp = match *self {
            HeightField::Periodic { amplitude_divisor_milli, .. } => amplitude_divisor_milli,
            HeightField::CoherentNoise { amplitude_divisor_milli, .. } => amplitude_divisor_milli,
            _ => 1,
        };
        let scaled = osc_milli * 1000;
        let offset = div_trunc(scaled, amp);
        proof {
            crate::num::lemma_div_tz_bounds(scaled as int, amp as int);
        }
        self.baseline() + offset
    }
}

/// Determinism law: for the deterministic variants the elevation is a
/// function of the field and the sample point alone, so repeated
/// evaluation at fixed inputs is bit-identical — the flat elevation
/// depends on the field only, the composed elevation on the field and
/// the oscillator sample only.
pub proof fn lemma_deterministic_repeatable(
    f: HeightField,
    g: HeightField,
    osc_f: i64,
    osc_g: i64,
)
    requires
        f == g,
        osc_f == osc_g,
    ensures
        f.spec_baseline() == g.spec_baseline(),
        f.spec_compose(osc_f) == g.spec_compose(osc_g),
{
}

/// At a point where the oscillator vanishes — for the periodic field, the
/// origin, where `sin(0) + sin(0) == 0` — the composed elevation equals
/// the baseline exactly.
pub proof fn lemma_zero_oscillator_keeps_baseline(f: HeightField)
    requires
        f.wf(),
        f.spec_has_oscillator(),
    ensures
        f.spec_compose(0) == f.spec_baseline(),
{
    let amp = f.spec_amplitude_divisor() as int;
    assert(0int / amp == 0) by (nonlinear_arith)
        requires
            amp > 0,
    ;
}

} // verus!
