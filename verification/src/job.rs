use vstd::prelude::*;

use crate::assemble::Animation;
use crate::assemble::AnimationAssembler;
use crate::assemble::FrameRecord;
use crate::config::AnimationConfig;
use crate::config::ConfigError;
use crate::domain::Domain;
use crate::field::FieldError;
use crate::field::HeightField;
use crate::field::OSC_LIMIT_MILLI;
use crate::frame::FrameMesh;
use crate::frame::build_mesh_composed;
use crate::frame::build_mesh_flat;
use crate::frame::build_mesh_stochastic;
use crate::grid::DENSITY_LIMIT;
use crate::grid::SamplingGrid;
use crate::grid::spec_first_num;
use crate::grid::spec_sample_count;
use crate::pitch::PitchSchedule;
use crate::rng::JobRng;

verus! {

/// Which parameter made a job unrunnable, found before rendering starts.
#[derive(Clone, Copy, PartialEq, Eq, Structural, Debug)]
pub enum ParamFault {
    Config(ConfigError),
    Field(FieldError),
    BadDensity,
    MeshTooLarge,
    OscillatorCountMismatch,
    OscillatorOutOfRange,
}

/// A job's fatal error: invalid parameters are caught at construction,
/// the other three kinds report a failed drawing backend, a failed frame
/// encoding, and a failed write of the output artifact.
#[derive(Clone, Copy, PartialEq, Eq, Structural, Debug)]
pub enum JobError {
    InvalidParameter(ParamFault),
    RenderingFailure,
    EncodingFailure,
    IoFailure,
}

/// One unit of work for the external driver: a height field, a
/// configuration and the output path of the one animation the job writes.
/// Jobs are independent and share no mutable state.
#[derive(Clone, Debug)]
pub struct AnimationJob {
    pub field: HeightField,
    pub config: AnimationConfig,
    pub output_path: String,
}

impl AnimationJob {
    pub open spec fn wf(self) -> bool {
        &&& self.field.wf()
        &&& self.config.wf()
    }

    /// Rejects a job whose field or configuration is invalid, before any
    /// rendering starts.
    pub fn validate(&self) -> (r: Result<(), JobError>)
        ensures
            r is Ok <==> self.wf(),
            !self.field.wf() ==> (r matches Err(e) && e matches JobError::InvalidParameter(f)
                && f matches ParamFault::Field(_)),
            self.field.wf() && !self.config.wf() ==> (r matches Err(e) && e
                matches JobError::InvalidParameter(f) && f matches ParamFault::Config(_)),
    {
        if let Err(e) = self.field.validate() {
            return Err(JobError::InvalidParameter(ParamFault::Field(e)));
        }
        let c = self.config;
        match AnimationConfig::new(
            c.width,
            c.height,
            c.frame_delay,
            c.frame_count,
            c.pitch_divisor_milli,
            c.domain,
        ) {
            Ok(_) => Ok(()),
            Err(e) => Err(JobError::InvalidParameter(ParamFault::Config(e))),
        }
    }
}

/// How many mesh cells one frame of this domain has at this density.
pub open spec fn spec_cells(domain: Domain, density: int) -> int {
    spec_sample_count(domain.x_range, density) * spec_sample_count(domain.z_range, density)
}

/// Everything a plan needs: valid field and configuration, a usable
/// density, and a mesh that fits in memory.
pub open spec fn spec_plannable(
    field: HeightField,
    config: AnimationConfig,
    density: int,
) -> bool {
    &&& field.wf()
    &&& config.wf()
    &&& 0 < density <= DENSITY_LIMIT
    &&& spec_cells(config.domain, density) <= usize::MAX
}

/// The shape every frame of a planned animation has: its index in the
/// sweep, the exact pitch of the schedule at that index, and the mesh of
/// the configured domain at the chosen density.
pub open spec fn spec_frame_shape(
    rec: FrameRecord,
    k: int,
    config: AnimationConfig,
    density: int,
) -> bool {
    &&& rec.frame_index == k
    &&& rec.angle.num == (PitchSchedule {
        frame_count: config.frame_count,
        pitch_divisor_milli: config.pitch_divisor_milli,
    }).spec_angle_num(k)
    &&& rec.angle.den == (PitchSchedule {
        frame_count: config.frame_count,
        pitch_divisor_milli: config.pitch_divisor_milli,
    }).spec_den()
    &&& rec.mesh.wf()
    &&& rec.mesh.density == density
    &&& rec.mesh.x_first_num == spec_first_num(config.domain.x_range, density)
    &&& rec.mesh.x_count == spec_sample_count(config.domain.x_range, density)
    &&& rec.mesh.z_first_num == spec_first_num(config.domain.z_range, density)
    &&& rec.mesh.z_count == spec_sample_count(config.domain.z_range, density)
}

/// Every vertex of the mesh sits exactly at the baseline.
pub open spec fn spec_mesh_flat(mesh: FrameMesh, baseline: i64) -> bool {
    forall|v: int|
        0 <= v < mesh.vertices@.len() ==> (#[trigger] mesh.vertices@[v]).elevation_milli
            == baseline
}

/// Vertex `v` of the mesh composes oscillator sample `v` exactly.
pub open spec fn spec_mesh_composed(mesh: FrameMesh, field: HeightField, oscs: Seq<i64>) -> bool {
    forall|v: int|
        0 <= v < mesh.vertices@.len() ==> (#[trigger] mesh.vertices@[v]).elevation_milli
            == field.spec_compose(oscs[v])
}

/// Validates field, configuration and density, builds the two sampling
/// grids, and checks that one frame's mesh fits in memory.
fn prepare_grids(field: &HeightField, config: &AnimationConfig, density: u32) -> (r: Result<
    (SamplingGrid, SamplingGrid),
    JobError,
>)
    ensures
        r is Ok <==> spec_plannable(*field, *config, density as int),
        r matches Ok(g) ==> {
            &&& g.0.wf() && g.1.wf()
            &&& g.0.density == density && g.1.density == density
            &&& g.0.samples@.len() == spec_sample_count(config.domain.x_range, density as int)
            &&& g.0.samples@[0] == spec_first_num(config.domain.x_range, density as int)
            &&& g.1.samples@.len() == spec_sample_count(config.domain.z_range, density as int)
            &&& g.1.samples@[0] == spec_first_num(config.domain.z_range, density as int)
            &&& g.0.samples@.len() * g.1.samples@.len() <= usize::MAX
        },
        !field.wf() ==> (r matches Err(e) && e matches JobError::InvalidParameter(f)
            && f matches ParamFault::Field(_)),
        field.wf() && !config.wf() ==> (r matches Err(e) && e
            matches JobError::InvalidParameter(f) && f matches ParamFault::Config(_)),
        field.wf() && config.wf() && !(0 < density <= DENSITY_LIMIT) ==> r == Err::<
            (SamplingGrid, SamplingGrid),
            JobError,
        >(JobError::InvalidParameter(ParamFault::BadDensity)),
        field.wf() && config.wf() && 0 < density <= DENSITY_LIMIT && spec_cells(
            config.domain,
            density as int,
        ) > usize::MAX ==> r == Err::<(SamplingGrid, SamplingGrid), JobError>(
            JobError::InvalidParameter(ParamFault::MeshTooLarge),
        ),
{
    if let Err(e) = field.validate() {
        return Err(JobError::InvalidParameter(ParamFault::Field(e)));
    }
    let c = *config;
    if let Err(e) = AnimationConfig::new(
        c.width,
        c.height,
        c.frame_delay,
        c.frame_count,
        c.pitch_divisor_milli,
        c.domain,
    ) {
        return Err(JobError::InvalidParameter(ParamFault::Config(e)));
    }
    if density == 0 || density > DENSITY_LIMIT {
        return Err(JobError::InvalidParameter(ParamFault::BadDensity));
    }
    let gx = SamplingGrid::new(config.domain.x_range, density);
    let gz = SamplingGrid::new(config.domain.z_range, density);
    let xl = gx.len();
    let zl = gz.len();
    proof {
        assert((xl as int) * (zl as int) < 0x1_0000_0000_0000_0000_0000_0000_0000_0000)
            by (nonlinear_arith)
            requires
                0 <= xl < 0x1_0000_0000_0000_0000,
                0 <= zl < 0x1_0000_0000_0000_0000,
        ;
    }
    let cells: u128 = xl as u128 * zl as u128;
    if cells > usize::MAX as u128 {
        return Err(JobError::InvalidParameter(ParamFault::MeshTooLarge));
    }
    Ok((gx, gz))
}

/// Plans the whole animation of a flat field: one frame per schedule
/// index, in sweep order, every vertex at the baseline elevation.
pub fn plan_flat_animation(field: &HeightField, config: &AnimationConfig, density: u32) -> (r:
    Result<Animation, JobError>)
    requires
        field is Flat,
    ensures
        r is Ok <==> spec_plannable(*field, *config, density as int),
        r matches Ok(a) ==> {
            &&& a.wf()
            &&& a.delay == config.frame_delay
            &&& a.frames@.len() == config.frame_count
            &&& forall|k: int|
                0 <= k < a.frames@.len() ==> spec_frame_shape(
                    #[trigger] a.frames@[k],
                    k,
                    *config,
                    density as int,
                ) && spec_mesh_flat(a.frames@[k].mesh, field.spec_baseline())
        },
        r matches Err(e) ==> e matches JobError::InvalidParameter(_),
{
    let (gx, gz) = match prepare_grids(field, config, density) {
        Ok(g) => g,
        Err(e) => { return Err(e) },
    };
    let schedule = PitchSchedule::new(config.frame_count, config.pitch_divisor_milli);
    let mut assembler = AnimationAssembler::new(config.frame_delay, config.frame_count);
    let mut i: u32 = 0;
    while i < config.frame_count
        invariant
            field is Flat,
            field.wf(),
            config.wf(),
            0 < density <= DENSITY_LIMIT,
            schedule == (PitchSchedule {
                frame_count: config.frame_count,
                pitch_divisor_milli: config.pitch_divisor_milli,
            }),
            gx.wf() && gz.wf(),
            gx.density == density && gz.density == density,
            gx.samples@.len() == spec_sample_count(config.domain.x_range, density as int),
            gx.samples@[0] == spec_first_num(config.domain.x_range, density as int),
            gz.samples@.len() == spec_sample_count(config.domain.z_range, density as int),
            gz.samples@[0] == spec_first_num(config.domain.z_range, density as int),
            gx.samples@.len() * gz.samples@.len() <= usize::MAX,
            i <= config.frame_count,
            assembler.wf(),
            assembler.delay == config.frame_delay,
            assembler.expected_frames == config.frame_count,
            assembler.frames@.len() == i,
            forall|k: int|
                0 <= k < i ==> spec_frame_shape(
                    #[trigger] assembler.frames@[k],
                    k,
                    *config,
                    density as int,
                ) && spec_mesh_flat(assembler.frames@[k].mesh, field.spec_baseline()),
        decreases config.frame_count - i,
    {
        let angle = schedule.angle(i);
        let mesh = build_mesh_flat(&gx, &gz, field);
        let rec = FrameRecord { frame_index: i, angle, mesh };
        let res = assembler.append(rec);
        proof {
            assert(res is Ok);
        }
        i = i + 1;
    }
    match assembler.finalize() {
        Ok(a) => Ok(a),
        Err(_) => Err(JobError::EncodingFailure),
    }
}

/// Plans the whole animation of a stochastic-flat field, drawing from the
/// random source this job owns: every vertex of every frame lies in
/// `[baseline, baseline + 1)`, and each frame draws afresh.
pub fn plan_stochastic_animation(
    field: &HeightField,
    config: &AnimationConfig,
    density: u32,
    rng: &mut JobRng,
) -> (r: Result<Animation, JobError>)
    requires
        field is StochasticFlat,
    ensures
        r is Ok <==> spec_plannable(*field, *config, density as int),
        r matches Ok(a) ==> {
            &&& a.wf()
            &&& a.delay == config.frame_delay
            &&& a.frames@.len() == config.frame_count
            &&& forall|k: int|
                0 <= k < a.frames@.len() ==> spec_frame_shape(
                    #[trigger] a.frames@[k],
                    k,
                    *config,
                    density as int,
                ) && a.frames@[k].mesh.elevations_within(
                    field.spec_baseline() as int,
                    field.spec_baseline() + 999,
                )
        },
        r matches Err(e) ==> e matches JobError::InvalidParameter(_),
{
    let (gx, gz) = match prepare_grids(field, config, density) {
        Ok(g) => g,
        Err(e) => { return Err(e) },
    };
    let schedule = PitchSchedule::new(config.frame_count, config.pitch_divisor_milli);
    let mut assembler = AnimationAssembler::new(config.frame_delay, config.frame_count);
    let mut i: u32 = 0;
    while i < config.frame_count
        invariant
            field is StochasticFlat,
            field.wf(),
            config.wf(),
            0 < density <= DENSITY_LIMIT,
            schedule == (PitchSchedule {
                frame_count: config.frame_count,
                pitch_divisor_milli: config.pitch_divisor_milli,
            }),
            gx.wf() && gz.wf(),
            gx.density == density && gz.density == density,
            gx.samples@.len() == spec_sample_count(config.domain.x_range, density as int),
            gx.samples@[0] == spec_first_num(config.domain.x_range, density as int),
            gz.samples@.len() == spec_sample_count(config.domain.z_range, density as int),
            gz.samples@[0] == spec_first_num(config.domain.z_range, density as int),
            gx.samples@.len() * gz.samples@.len() <= usize::MAX,
            i <= config.frame_count,
            assembler.wf(),
            assembler.delay == config.frame_delay,
            assembler.expected_frames == config.frame_count,
            assembler.frames@.len() == i,
            forall|k: int|
                0 <= k < i ==> spec_frame_shape(
                    #[trigger] assembler.frames@[k],
                    k,
                    *config,
                    density as int,
                ) && assembler.frames@[k].mesh.elevations_within(
                    field.spec_baseline() as int,
                    field.spec_baseline() + 999,
                ),
        decreases config.frame_count - i,
    {
        let angle = schedule.angle(i);
        let mesh = build_mesh_stochastic(&gx, &gz, field, rng);
        let rec = FrameRecord { frame_index: i, angle, mesh };
        let res = assembler.append(rec);
        proof {
            assert(res is Ok);
        }
        i = i + 1;
    }
    match assembler.finalize() {
        Ok(a) => Ok(a),
        Err(_) => Err(JobError::EncodingFailure),
    }
}

/// Plans the whole animation of an oscillating field from one outside
/// oscillator sample per grid point (row-major). The field is
/// deterministic, so every frame composes the same samples: only the
/// camera pitch varies across frames.
pub fn plan_composed_animation(
    field: &HeightField,
    config: &AnimationConfig,
    density: u32,
    oscs: &Vec<i64>,
) -> (r: Result<Animation, JobError>)
    requires
        field.spec_has_oscillator(),
    ensures
        r is Ok <==> (spec_plannable(*field, *config, density as int) && oscs@.len() == spec_cells(
            config.domain,
            density as int,
        ) && (forall|v: int|
            0 <= v < oscs@.len() ==> -OSC_LIMIT_MILLI <= #[trigger] oscs@[v] <= OSC_LIMIT_MILLI)),
        r matches Ok(a) ==> {
            &&& a.wf()
            &&& a.delay == config.frame_delay
            &&& a.frames@.len() == config.frame_count
            &&& forall|k: int|
                0 <= k < a.frames@.len() ==> spec_frame_shape(
                    #[trigger] a.frames@[k],
                    k,
                    *config,
                    density as int,
                ) && spec_mesh_composed(a.frames@[k].mesh, *field, oscs@)
        },
        r matches Err(e) ==> e matches JobError::InvalidParameter(_),
{
    let (gx, gz) = match prepare_grids(field, config, density) {
        Ok(g) => g,
        Err(e) => { return Err(e) },
    };
    let cells = gx.len() * gz.len();
    if oscs.len() != cells {
        return Err(JobError::InvalidParameter(ParamFault::OscillatorCountMismatch));
    }
    let mut v: usize = 0;
    while v < cells
        invariant
            oscs@.len() == cells,
            v <= cells,
            forall|p: int|
                0 <= p < v ==> -OSC_LIMIT_MILLI <= #[trigger] oscs@[p] <= OSC_LIMIT_MILLI,
        decreases cells - v,
    {
        let o = oscs[v];
        if o < -OSC_LIMIT_MILLI || o > OSC_LIMIT_MILLI {
            return Err(JobError::InvalidParameter(ParamFault::OscillatorOutOfRange));
        }
        v = v + 1;
    }
    let schedule = PitchSchedule::new(config.frame_count, config.pitch_divisor_milli);
    let mut assembler = AnimationAssembler::new(config.frame_delay, config.frame_count);
    let mut i: u32 = 0;
    while i < config.frame_count
        invariant
            field.spec_has_oscillator(),
            field.wf(),
            config.wf(),
            0 < density <= DENSITY_LIMIT,
            schedule == (PitchSchedule {
                frame_count: config.frame_count,
                pitch_divisor_milli: config.pitch_divisor_milli,
            }),
            gx.wf() && gz.wf(),
            gx.density == density && gz.density == density,
            gx.samples@.len() == spec_sample_count(config.domain.x_range, density as int),
            gx.samples@[0] == spec_first_num(config.domain.x_range, density as int),
            gz.samples@.len() == spec_sample_count(config.domain.z_range, density as int),
            gz.samples@[0] == spec_first_num(config.domain.z_range, density as int),
            gx.samples@.len() * gz.samples@.len() <= usize::MAX,
            oscs@.len() == gx.samples@.len() * gz.samples@.len(),
            forall|p: int|
                0 <= p < oscs@.len() ==> -OSC_LIMIT_MILLI <= #[trigger] oscs@[p]
                    <= OSC_LIMIT_MILLI,
            i <= config.frame_count,
            assembler.wf(),
            assembler.delay == config.frame_delay,
            assembler.expected_frames == config.frame_count,
            assembler.frames@.len() == i,
            forall|k: int|
                0 <= k < i ==> spec_frame_shape(
                    #[trigger] assembler.frames@[k],
                    k,
                    *config,
                    density as int,
                ) && spec_mesh_composed(assembler.frames@[k].mesh, *field, oscs@),
        decreases config.frame_count - i,
    {
        let angle = schedule.angle(i);
        let mesh = build_mesh_composed(&gx, &gz, field, oscs);
        let rec = FrameRecord { frame_index: i, angle, mesh };
        let res = assembler.append(rec);
        proof {
            assert(res is Ok);
        }
        i = i + 1;
    }
    match assembler.finalize() {
        Ok(a) => Ok(a),
        Err(_) => Err(JobError::EncodingFailure),
    }
}

/// Which jobs failed, by position, and with what error.
#[derive(Clone, Debug)]
pub struct JobReport {
    pub total: usize,
    pub failures: Vec<(usize, JobError)>,
}

/// The failures among the outcomes, each attributed to its job's
/// position, in job order.
pub open spec fn spec_failures(s: Seq<Result<(), JobError>>) -> Seq<(usize, JobError)>
    decreases s.len(),
{
    if s.len() == 0 {
        Seq::empty()
    } else {
        let front = spec_failures(s.drop_last());
        match s.last() {
            Ok(_) => front,
            Err(e) => front.push((((s.len() - 1) as usize), e)),
        }
    }
}

/// Aggregates all jobs' outcomes after every worker has finished: each
/// failure is captured and attributed to its own job, and no failure
/// is swallowed — sibling jobs' outcomes are reported independently.
pub fn aggregate_outcomes(outcomes: &Vec<Result<(), JobError>>) -> (r: JobReport)
    ensures
        r.total == outcomes@.len(),
        r.failures@ == spec_failures(outcomes@),
{
    let mut failures: Vec<(usize, JobError)> = Vec::new();
    let mut k: usize = 0;
    while k < outcomes.len()
        invariant
            k <= outcomes@.len(),
            failures@ == spec_failures(outcomes@.take(k as int)),
        decreases outcomes@.len() - k,
    {
        match &outcomes[k] {
            Ok(_) => {},
            Err(e) => {
                failures.push((k, *e));
            },
        }
        proof {
            assert(outcomes@.take(k + 1 as int).drop_last() =~= outcomes@.take(k as int));
            assert(outcomes@.take(k + 1 as int).last() == outcomes@[k as int]);
        }
        k = k + 1;
    }
    proof {
        assert(outcomes@.take(outcomes@.len() as int) =~= outcomes@);
    }
    JobReport { total: outcomes.len(), failures }
}

/// Failure isolation law, attribution: every reported failure points at
/// its own job, and that job did fail with exactly that error.
pub proof fn lemma_failures_attributed(s: Seq<Result<(), JobError>>)
    requires
        s.len() <= usize::MAX,
    ensures
        forall|m: int|
            0 <= m < spec_failures(s).len() ==> (#[trigger] spec_failures(s)[m]).0 < s.len() && s[
                spec_failures(s)[m].0 as int
            ] == Err::<(), JobError>(spec_failures(s)[m].1),
    decreases s.len(),
{
    if s.len() > 0 {
        lemma_failures_attributed(s.drop_last());
        let front = spec_failures(s.drop_last());
        assert forall|m: int| 0 <= m < spec_failures(s).len() implies (#[trigger] spec_failures(
            s,
        )[m]).0 < s.len() && s[spec_failures(s)[m].0 as int] == Err::<(), JobError>(
            spec_failures(s)[m].1,
        ) by {
            if m < front.len() {
                assert(spec_failures(s)[m] == front[m]);
                assert(front[m].0 < s.drop_last().len());
                assert(s.drop_last()[front[m].0 as int] == s[front[m].0 as int]);
            } else {
                assert(s.last() is Err);
                assert(spec_failures(s)[m] == (((s.len() - 1) as usize), s.last()->Err_0));
                assert(s[s.len() - 1] == s.last());
            }
        }
    }
}

/// Failure isolation law, completeness: a failed job is always reported —
/// no error is silently swallowed.
pub proof fn lemma_failures_complete(s: Seq<Result<(), JobError>>, k: int)
    requires
        s.len() <= usize::MAX,
        0 <= k < s.len(),
        s[k] is Err,
    ensures
        exists|m: int|
            0 <= m < spec_failures(s).len() && (#[trigger] spec_failures(s)[m]).0 == k,
    decreases s.len(),
{
    let front = spec_failures(s.drop_last());
    if k == s.len() - 1 {
        assert(s.last() == s[k]);
        assert(spec_failures(s) == front.push((((s.len() - 1) as usize), s.last()->Err_0)));
        assert(spec_failures(s)[front.len() as int].0 == k);
    } else {
        lemma_failures_complete(s.drop_last(), k);
        let m = choose|m: int|
            0 <= m < spec_failures(s.drop_last()).len() && (#[trigger] spec_failures(
                s.drop_last(),
            )[m]).0 == k;
        assert(spec_failures(s)[m] == front[m]);
        assert(spec_failures(s)[m].0 == k);
    }
}

/// A job that succeeded is never reported as a failure.
pub proof fn lemma_successes_not_reported(s: Seq<Result<(), JobError>>, k: int)
    requires
        s.len() <= usize::MAX,
        0 <= k < s.len(),
        s[k] is Ok,
    ensures
        forall|m: int|
            0 <= m < spec_failures(s).len() ==> (#[trigger] spec_failures(s)[m]).0 != k,
    decreases s.len(),
{
    lemma_failures_attributed(s);
}

} // verus!
