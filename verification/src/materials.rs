//! The fluid constitutive model.
//!
//! Stress blends an equation-of-state pressure term with a viscous term
//! from the strain rate (the symmetric part of the velocity gradient), both
//! scaled by the deformation Jacobian; an optional linear volume-correction
//! term is added when volume preservation is enabled. After integration,
//! `project_deformation` re-isotropizes the deformation gradient to
//! `|det F|^(1/4) * I`, so a fluid accumulates no shear memory.

use vstd::prelude::*;
use crate::fixed::{Fx, FX_ONE, FX_HALF, fx_clip, is_fourth_root};
use crate::linalg::Mat2;
use crate::particle::{Particle, FluidParams, MaterialType};
use crate::params::SolverParams;

verus! {

/// Raw fixed-point floor (about -0.1) below which the EOS pressure never
/// drops, keeping weak under-pressures from imploding the fluid.
pub const EOS_PRESSURE_FLOOR_RAW: i64 = -6554;

/// Exact zero-check reciprocal: `1 / e`, or zero when `e` is zero, so a
/// vanished denominator cannot produce an invalid value that would silently
/// propagate.
pub fn inv_exact(e: Fx) -> (r: Fx)
    requires
        e.wf(),
    ensures
        r@ == Fx::spec_div(FX_ONE as int, e@),
        r.wf(),
{
    Fx::one().div_safe(e)
}

/// The equation-of-state pressure: `stiffness * ((density/rest)^power - 1)`
/// clamped from below at the pressure floor.
pub open spec fn spec_eos_pressure(density: int, fluid: FluidParams) -> int {
    let ratio = Fx::spec_div(density, fluid.rest_density@);
    let term = Fx::spec_mul(
        fluid.eos_stiffness@,
        fx_clip(Fx::spec_powi(ratio, fluid.eos_power as nat) - FX_ONE as int),
    );
    if term >= EOS_PRESSURE_FLOOR_RAW as int {
        term
    } else {
        EOS_PRESSURE_FLOOR_RAW as int
    }
}

/// The optional linear volume-preservation correction:
/// `strength * (volume - volume0) / volume0 * rest_density`, where the
/// current volume is `mass / density` through the safe reciprocal.
pub open spec fn spec_volume_correction(
    p: Particle,
    density: int,
    params: SolverParams,
    fluid: FluidParams,
) -> int {
    if params.preserve_fluid_volume {
        let volume = Fx::spec_mul(p.mass@, Fx::spec_div(FX_ONE as int, density));
        let deviation = Fx::spec_div(fx_clip(volume - p.volume0@), p.volume0@);
        Fx::spec_mul(
            Fx::spec_mul(params.volume_correction_strength@, deviation),
            fluid.rest_density@,
        )
    } else {
        0
    }
}

/// The strain rate: the symmetric part of the velocity gradient.
pub open spec fn spec_strain_rate(g: Mat2) -> Mat2 {
    Mat2 {
        m00: Fx { raw: Fx::spec_mul(fx_clip(g.m00@ + g.m00@), FX_HALF as int) as i64 },
        m01: Fx { raw: Fx::spec_mul(fx_clip(g.m01@ + g.m10@), FX_HALF as int) as i64 },
        m10: Fx { raw: Fx::spec_mul(fx_clip(g.m10@ + g.m01@), FX_HALF as int) as i64 },
        m11: Fx { raw: Fx::spec_mul(fx_clip(g.m11@ + g.m11@), FX_HALF as int) as i64 },
    }
}

/// The deviatoric part of a tensor: the tensor minus half its trace on the
/// diagonal.
pub open spec fn spec_deviatoric(t: Mat2) -> Mat2 {
    let s = Fx::spec_mul(fx_clip(t.m00@ + t.m11@), FX_HALF as int);
    Mat2 {
        m00: Fx { raw: fx_clip(t.m00@ - s) as i64 },
        m01: t.m01,
        m10: t.m10,
        m11: Fx { raw: fx_clip(t.m11@ - s) as i64 },
    }
}

/// The full fluid stress tensor: the isotropic pressure term
/// `-(eos + correction) * J * I` plus the viscous term
/// `2 * viscosity * J * deviatoric(strain rate)`.
pub open spec fn spec_fluid_stress(
    p: Particle,
    density: int,
    params: SolverParams,
    fluid: FluidParams,
) -> Mat2 {
    let total = fx_clip(
        spec_eos_pressure(density, fluid) + spec_volume_correction(p, density, params, fluid),
    );
    let jac = p.deformation_gradient.spec_determinant();
    let s = Fx::spec_mul(-total, jac);
    let dev = spec_deviatoric(spec_strain_rate(p.velocity_gradient));
    let coef = Fx::spec_mul(Fx::spec_mul(2 * FX_ONE as int, params.dynamic_viscosity@), jac);
    Mat2 {
        m00: Fx { raw: fx_clip(s + Fx::spec_mul(dev.m00@, coef)) as i64 },
        m01: Fx { raw: fx_clip(0 + Fx::spec_mul(dev.m01@, coef)) as i64 },
        m10: Fx { raw: fx_clip(0 + Fx::spec_mul(dev.m10@, coef)) as i64 },
        m11: Fx { raw: fx_clip(s + Fx::spec_mul(dev.m11@, coef)) as i64 },
    }
}

/// Evaluate the fluid stress of a particle at the locally gathered density.
pub fn calculate_stress(
    particle: &Particle,
    density: Fx,
    params: &SolverParams,
    fluid: &FluidParams,
) -> (r: Mat2)
    requires
        particle.wf(),
        density.wf(),
        params.wf(),
        fluid.wf(),
    ensures
        r == spec_fluid_stress(*particle, density@, *params, *fluid),
        r.wf(),
{
    let ratio = density.div_safe(fluid.rest_density);
    let term = fluid.eos_stiffness.mul(ratio.powi(fluid.eos_power).sub(Fx::one()));
    let eos_pressure = term.max(Fx { raw: EOS_PRESSURE_FLOOR_RAW });

    let volume_correction: Fx = if params.preserve_fluid_volume {
        let volume = particle.mass.mul(inv_exact(density));
        let deviation = volume.sub(particle.volume0).div_safe(particle.volume0);
        params.volume_correction_strength.mul(deviation).mul(fluid.rest_density)
    } else {
        Fx::zero()
    };

    let total_pressure = eos_pressure.add(volume_correction);
    let jacobian = particle.deformation_gradient.determinant();
    let pressure_scale = total_pressure.neg().mul(jacobian);
    let stress = Mat2::diagonal(pressure_scale);

    let g = particle.velocity_gradient;
    let half = Fx { raw: FX_HALF };
    let strain_rate = g.add(g.transpose()).scale(half);
    let spherical = strain_rate.trace().mul(half);
    let deviatoric = strain_rate.sub(Mat2::diagonal(spherical));
    let coef = Fx::from_units(2).mul(params.dynamic_viscosity).mul(jacobian);
    let viscosity_term = deviatoric.scale(coef);

    let r = stress.add(viscosity_term);
    proof {
        assert(r == spec_fluid_stress(*particle, density@, *params, *fluid));
    }
    r
}

/// The re-isotropized deformation gradient: `|det F|^(1/4)` times the
/// identity.
pub open spec fn spec_projected_deformation(f: Mat2) -> Mat2 {
    let det = f.spec_determinant();
    let adet = if det >= 0 {
        det
    } else {
        -det
    };
    let s = Fx { raw: crate::fixed::spec_fourth_root(adet * 0x1_0000_0000_0000) as i64 };
    Mat2 { m00: s, m01: Fx { raw: 0 }, m10: Fx { raw: 0 }, m11: s }
}

/// Advance a scalar volume-change tracker multiplicatively:
/// `j := (1 + dt * trace(velocity gradient)) * j`.
pub fn update_deformation(jp: &mut Fx, velocity_gradient: Mat2, dt: Fx)
    requires
        old(jp).wf(),
        velocity_gradient.wf(),
        dt.wf(),
    ensures
        final(jp)@ == Fx::spec_mul(
            fx_clip(
                FX_ONE as int + Fx::spec_mul(
                    fx_clip(velocity_gradient.m00@ + velocity_gradient.m11@),
                    dt@,
                ),
            ),
            old(jp)@,
        ),
        final(jp).wf(),
{
    let factor = Fx::one().add(velocity_gradient.trace().mul(dt));
    *jp = factor.mul(*jp);
}

impl MaterialType {
    /// Evaluate this material's stress tensor from the particle state, the
    /// locally gathered density, and the solver parameters.
    pub fn compute_stress(&self, particle: &Particle, density: Fx, params: &SolverParams) -> (r:
        Mat2)
        requires
            particle.wf(),
            density.wf(),
            params.wf(),
            self.wf(),
        ensures
            r == spec_fluid_stress(*particle, density@, *params, self.spec_fluid_params()),
            r.wf(),
    {
        match self {
            MaterialType::Fluid(fluid) => calculate_stress(particle, density, params, fluid),
        }
    }

    /// Re-isotropize the deformation gradient after integration: replace it
    /// by `|det F|^(1/4) * I`. The result is always a pure uniform scaling
    /// matrix — both off-diagonal entries are exactly zero and the two
    /// diagonal entries are equal — whatever transfer preceded it.
    pub fn project_deformation(&self, particle: &mut Particle)
        requires
            old(particle).wf(),
        ensures
            final(particle).deformation_gradient.m01@ == 0,
            final(particle).deformation_gradient.m10@ == 0,
            final(particle).deformation_gradient.m00
                == final(particle).deformation_gradient.m11,
            is_fourth_root(
                (if old(particle).deformation_gradient.spec_determinant() >= 0 {
                    old(particle).deformation_gradient.spec_determinant()
                } else {
                    -old(particle).deformation_gradient.spec_determinant()
                }) * 0x1_0000_0000_0000,
                final(particle).deformation_gradient.m00@,
            ),
            final(particle).deformation_gradient == spec_projected_deformation(
                old(particle).deformation_gradient,
            ),
            *final(particle) == (Particle {
                deformation_gradient: final(particle).deformation_gradient,
                ..*old(particle)
            }),
            final(particle).wf(),
    {
        match self {
            MaterialType::Fluid(_) => {
                let jacobian = particle.deformation_gradient.determinant();
                let scale = jacobian.abs().fourth_root();
                particle.deformation_gradient = Mat2::diagonal(scale);
            },
        }
    }
}

} // verus!
