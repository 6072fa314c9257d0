//! Solver configuration: equation-of-state and viscosity parameters, the
//! constraint-pass configuration, and the shared physical constants.
//!
//! These are plain value structs supplied at construction and mutable via
//! setters; nothing here is derived state.

use vstd::prelude::*;
use crate::fixed::Fx;

verus! {

/// Raw fixed-point value of the default fluid rest density (2.0).
pub const REST_DENSITY_RAW: i64 = 131072;

/// Raw fixed-point value of the default EOS stiffness (2.0).
pub const EOS_STIFFNESS_RAW: i64 = 131072;

/// Default EOS power.
pub const EOS_POWER: u32 = 4;

/// Raw fixed-point value of the default dynamic viscosity (~0.001).
pub const DYNAMIC_VISCOSITY_RAW: i64 = 66;

/// Raw fixed-point value of the default gravity's y component (-80.0).
pub const GRAVITY_Y_RAW: i64 = -5242880;

/// Parameters controlling the solver's fluid behaviour.
#[derive(Clone, Copy, PartialEq, Eq, Structural, Debug)]
pub struct SolverParams {
    /// Enable the linear volume-preservation correction for incompressible
    /// materials.
    pub preserve_fluid_volume: bool,
    /// Strength of the volume-preservation correction (0 = disabled).
    pub volume_correction_strength: Fx,
    /// Dynamic viscosity of fluid materials.
    pub dynamic_viscosity: Fx,
}

impl SolverParams {
    /// All fields lie in the representable scalar range.
    pub open spec fn wf(self) -> bool {
        self.volume_correction_strength.wf() && self.dynamic_viscosity.wf()
    }

    /// The default parameters: no volume preservation, light viscosity.
    pub fn new_default() -> (r: SolverParams)
        ensures
            r.preserve_fluid_volume == false,
            r.volume_correction_strength@ == 0,
            r.dynamic_viscosity@ == DYNAMIC_VISCOSITY_RAW as int,
            r.wf(),
    {
        SolverParams {
            preserve_fluid_volume: false,
            volume_correction_strength: Fx::zero(),
            dynamic_viscosity: Fx { raw: DYNAMIC_VISCOSITY_RAW },
        }
    }

    /// Parameters with the volume-preservation correction enabled at half
    /// strength.
    pub fn with_volume_preservation() -> (r: SolverParams)
        ensures
            r.preserve_fluid_volume == true,
            r.volume_correction_strength@ == crate::fixed::FX_HALF as int,
            r.dynamic_viscosity@ == DYNAMIC_VISCOSITY_RAW as int,
            r.wf(),
    {
        SolverParams {
            preserve_fluid_volume: true,
            volume_correction_strength: Fx { raw: crate::fixed::FX_HALF },
            dynamic_viscosity: Fx { raw: DYNAMIC_VISCOSITY_RAW },
        }
    }

    /// Parameters with the volume-preservation correction disabled.
    pub fn without_volume_preservation() -> (r: SolverParams)
        ensures
            r.preserve_fluid_volume == false,
            r.volume_correction_strength@ == 0,
            r.dynamic_viscosity@ == DYNAMIC_VISCOSITY_RAW as int,
            r.wf(),
    {
        SolverParams {
            preserve_fluid_volume: false,
            volume_correction_strength: Fx::zero(),
            dynamic_viscosity: Fx { raw: DYNAMIC_VISCOSITY_RAW },
        }
    }

    /// Set the volume-preservation strength, clamped into `[0, 1]`.
    pub fn with_correction_strength(self, strength: Fx) -> (r: SolverParams)
        requires
            self.wf(),
            strength.wf(),
        ensures
            r.volume_correction_strength@ == if strength@ < 0 {
                0int
            } else if strength@ > crate::fixed::FX_ONE as int {
                crate::fixed::FX_ONE as int
            } else {
                strength@
            },
            r.preserve_fluid_volume == self.preserve_fluid_volume,
            r.dynamic_viscosity == self.dynamic_viscosity,
            r.wf(),
    {
        SolverParams {
            volume_correction_strength: strength.clamp(Fx::zero(), Fx::one()),
            ..self
        }
    }
}

impl Default for SolverParams {
    /// The default parameters: no volume preservation, light viscosity.
    fn default() -> (r: SolverParams)
        ensures
            r.preserve_fluid_volume == false,
            r.volume_correction_strength@ == 0,
            r.dynamic_viscosity@ == DYNAMIC_VISCOSITY_RAW as int,
            r.wf(),
    {
        SolverParams::new_default()
    }
}

/// Configuration of the position-based constraint pass.
#[derive(Clone, Copy, PartialEq, Eq, Structural, Debug)]
pub struct PbmpmConfig {
    /// Number of constraint iterations per step.
    pub iteration_count: u32,
    /// Scale applied to the volume-error residual each iteration.
    pub relaxation_factor: Fx,
    /// Blend weight for seeding iteration 0 from the previous frame's
    /// converged solution.
    pub warm_start_weight: Fx,
}

impl PbmpmConfig {
    /// All fields lie in the representable scalar range.
    pub open spec fn wf(self) -> bool {
        self.relaxation_factor.wf() && self.warm_start_weight.wf()
    }

    /// A default configuration: two iterations, mild relaxation, full warm
    /// start.
    pub fn new_default() -> (r: PbmpmConfig)
        ensures
            r.iteration_count == 2,
            r.relaxation_factor@ == crate::fixed::FX_HALF as int,
            r.warm_start_weight@ == crate::fixed::FX_HALF as int,
            r.wf(),
    {
        PbmpmConfig {
            iteration_count: 2,
            relaxation_factor: Fx { raw: crate::fixed::FX_HALF },
            warm_start_weight: Fx { raw: crate::fixed::FX_HALF },
        }
    }
}

impl Default for PbmpmConfig {
    /// The default configuration.
    fn default() -> (r: PbmpmConfig)
        ensures
            r.iteration_count == 2,
            r.relaxation_factor@ == crate::fixed::FX_HALF as int,
            r.warm_start_weight@ == crate::fixed::FX_HALF as int,
            r.wf(),
    {
        PbmpmConfig::new_default()
    }
}

} // verus!
