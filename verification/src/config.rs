use vstd::prelude::*;

use crate::domain::Domain;

verus! {

/// Why an animation configuration was rejected before rendering started.
#[derive(Clone, Copy, PartialEq, Eq, Structural, Debug)]
pub enum ConfigError {
    ZeroWidth,
    ZeroHeight,
    ZeroFrameDelay,
    ZeroFrameCount,
    ZeroPitchDivisor,
    BadXRange,
    BadYRange,
    BadZRange,
}

/// Immutable per-job settings: canvas size in pixels, inter-frame delay,
/// frame count, pitch-sweep speed divisor (milli-units) and the plotted
/// volume. Created once per job, never mutated.
#[derive(Clone, Copy, PartialEq, Eq, Structural, Debug)]
pub struct AnimationConfig {
    pub width: u32,
    pub height: u32,
    pub frame_delay: u32,
    pub frame_count: u32,
    pub pitch_divisor_milli: u32,
    pub domain: Domain,
}

impl AnimationConfig {
    pub open spec fn wf(self) -> bool {
        &&& self.width > 0
        &&& self.height > 0
        &&& self.frame_delay > 0
        &&& self.frame_count > 0
        &&& self.pitch_divisor_milli > 0
        &&& self.domain.wf()
    }

    /// Validates every parameter before any rendering may start: zero-valued
    /// sizes, delay, frame count or divisor, and empty or inverted ranges,
    /// are rejected, each under its own error.
    pub fn new(
        width: u32,
        height: u32,
        frame_delay: u32,
        frame_count: u32,
        pitch_divisor_milli: u32,
        domain: Domain,
    ) -> (r: Result<AnimationConfig, ConfigError>)
        ensures
            r is Ok <==> (AnimationConfig {
                width,
                height,
                frame_delay,
                frame_count,
                pitch_divisor_milli,
                domain,
            }).wf(),
            r matches Ok(c) ==> c == (AnimationConfig {
                width,
                height,
                frame_delay,
                frame_count,
                pitch_divisor_milli,
                domain,
            }),
            width == 0 ==> r == Err::<AnimationConfig, ConfigError>(ConfigError::ZeroWidth),
            width > 0 && height == 0 ==> r == Err::<AnimationConfig, ConfigError>(
                ConfigError::ZeroHeight,
            ),
            width > 0 && height > 0 && frame_delay == 0 ==> r == Err::<AnimationConfig, ConfigError>(
                ConfigError::ZeroFrameDelay,
            ),
            width > 0 && height > 0 && frame_delay > 0 && frame_count == 0 ==> r == Err::<
                AnimationConfig,
                ConfigError,
            >(ConfigError::ZeroFrameCount),
            width > 0 && height > 0 && frame_delay > 0 && frame_count > 0 && pitch_divisor_milli
                == 0 ==> r == Err::<AnimationConfig, ConfigError>(ConfigError::ZeroPitchDivisor),
            width > 0 && height > 0 && frame_delay > 0 && frame_count > 0 && pitch_divisor_milli > 0
                && !domain.x_range.wf() ==> r == Err::<AnimationConfig, ConfigError>(
                ConfigError::BadXRange,
            ),
            width > 0 && height > 0 && frame_delay > 0 && frame_count > 0 && pitch_divisor_milli > 0
                && domain.x_range.wf() && !domain.y_range.wf() ==> r == Err::<
                AnimationConfig,
                ConfigError,
            >(ConfigError::BadYRange),
            width > 0 && height > 0 && frame_delay > 0 && frame_count > 0 && pitch_divisor_milli > 0
                && domain.x_range.wf() && domain.y_range.wf() && !domain.z_range.wf() ==> r == Err::<
                AnimationConfig,
                ConfigError,
            >(ConfigError::BadZRange),
    {
        if width == 0 {
            Err(ConfigError::ZeroWidth)
        } else if height == 0 {
            Err(ConfigError::ZeroHeight)
        } else if frame_delay == 0 {
            Err(ConfigError::ZeroFrameDelay)
        } else if frame_count == 0 {
            Err(ConfigError::ZeroFrameCount)
        } else if pitch_divisor_milli == 0 {
            Err(ConfigError::ZeroPitchDivisor)
        } else if !domain.x_range.is_wf() {
            Err(ConfigError::BadXRange)
        } else if !domain.y_range.is_wf() {
            Err(ConfigError::BadYRange)
        } else if !domain.z_range.is_wf() {
            Err(ConfigError::BadZRange)
        } else {
            Ok(
                AnimationConfig {
                    width,
                    height,
                    frame_delay,
                    frame_count,
                    pitch_divisor_milli,
                    domain,
                },
            )
        }
    }
}

} // verus!
