//! Material particles.
//!
//! A particle carries position, velocity, mass and reference volume, the
//! affine velocity matrix of the APIC transfer, the velocity gradient, and
//! the deformation gradient whose determinant tracks local volume change.
//! Particles that become numerically unstable are flagged `failed` and
//! removed at the next compaction boundary, never mid-pass.

use vstd::prelude::*;
use crate::fixed::{Fx, FX_MAX_RAW, fx_clip};
use crate::linalg::{Vec2, Mat2};

verus! {

/// Raw fixed-point value of pi.
pub const FX_PI_RAW: i64 = 205887;

/// Condition-number threshold (1.0e6) above which a particle is marked
/// failed, in raw fixed-point units.
pub const CONDITION_LIMIT_RAW: i64 = 65536000000;

/// Parameters describing a generic fluid material.
#[derive(Clone, Copy, PartialEq, Eq, Structural, Debug)]
pub struct FluidParams {
    /// Rest density the equation of state relaxes toward.
    pub rest_density: Fx,
    /// Stiffness of the equation of state.
    pub eos_stiffness: Fx,
    /// Power of the equation of state.
    pub eos_power: u32,
}

impl FluidParams {
    /// All scalar fields lie in the representable range.
    pub open spec fn wf(self) -> bool {
        self.rest_density.wf() && self.eos_stiffness.wf()
    }

    /// Build fluid parameters from explicit values.
    pub fn new(rest_density: Fx, eos_stiffness: Fx, eos_power: u32) -> (r: FluidParams)
        ensures
            r.rest_density == rest_density,
            r.eos_stiffness == eos_stiffness,
            r.eos_power == eos_power,
    {
        FluidParams { rest_density, eos_stiffness, eos_power }
    }

    /// The default fluid parameters.
    pub fn defaults() -> (r: FluidParams)
        ensures
            r.rest_density@ == crate::params::REST_DENSITY_RAW as int,
            r.eos_stiffness@ == crate::params::EOS_STIFFNESS_RAW as int,
            r.eos_power == crate::params::EOS_POWER,
            r.wf(),
    {
        FluidParams {
            rest_density: Fx { raw: crate::params::REST_DENSITY_RAW },
            eos_stiffness: Fx { raw: crate::params::EOS_STIFFNESS_RAW },
            eos_power: crate::params::EOS_POWER,
        }
    }

    /// The default parameters under their traditional label.
    pub fn water() -> (r: FluidParams)
        ensures
            r.rest_density@ == crate::params::REST_DENSITY_RAW as int,
            r.eos_stiffness@ == crate::params::EOS_STIFFNESS_RAW as int,
            r.eos_power == crate::params::EOS_POWER,
            r.wf(),
    {
        FluidParams::defaults()
    }
}

/// The closed set of material models; stress evaluation and deformation
/// projection dispatch on the variant.
#[derive(Clone, Copy, PartialEq, Eq, Structural, Debug)]
pub enum MaterialType {
    /// A near-incompressible fluid.
    Fluid(FluidParams),
}

impl MaterialType {
    /// The parameters of this material.
    pub open spec fn spec_fluid_params(self) -> FluidParams {
        match self {
            MaterialType::Fluid(f) => f,
        }
    }

    /// The material's parameters lie in the representable range.
    pub open spec fn wf(self) -> bool {
        self.spec_fluid_params().wf()
    }

    /// Water: a fluid with the default parameters.
    pub fn water() -> (r: MaterialType)
        ensures
            r.spec_fluid_params().rest_density@ == crate::params::REST_DENSITY_RAW as int,
            r.spec_fluid_params().eos_stiffness@ == crate::params::EOS_STIFFNESS_RAW as int,
            r.spec_fluid_params().eos_power == crate::params::EOS_POWER,
            r.wf(),
    {
        MaterialType::Fluid(FluidParams::water())
    }

    /// A fluid with explicit parameters.
    pub fn fluid(params: FluidParams) -> (r: MaterialType)
        ensures
            r == MaterialType::Fluid(params),
    {
        MaterialType::Fluid(params)
    }

    /// Whether this material is a fluid.
    pub fn is_fluid(&self) -> (r: bool)
        ensures
            r == self is Fluid,
    {
        match self {
            MaterialType::Fluid(_) => true,
        }
    }
}

/// A material particle.
#[derive(Clone, Copy, PartialEq, Eq, Structural, Debug)]
pub struct Particle {
    /// Position in grid units.
    pub position: Vec2,
    /// Velocity.
    pub velocity: Vec2,
    /// Mass; must stay positive for the particle to remain alive.
    pub mass: Fx,
    /// Reference volume; must stay positive to remain alive.
    pub volume0: Fx,
    /// Reference radius.
    pub radius0: Fx,
    /// The APIC affine velocity matrix (C).
    pub affine_momentum_matrix: Mat2,
    /// The velocity gradient gathered in the last grid-to-particle pass.
    pub velocity_gradient: Mat2,
    /// The deformation gradient (F); starts at identity, its determinant is
    /// the local volume ratio (Jacobian).
    pub deformation_gradient: Mat2,
    /// Material model tag.
    pub material_type: MaterialType,
    /// Cached packed cell id from the last spatial rebuild.
    pub grid_index: u64,
    /// Tracked liquid density of the constraint pass.
    pub liquid_density: Fx,
    /// Working deformation displacement of the constraint pass.
    pub deformation_displacement: Mat2,
    /// Previous frame's converged deformation displacement (warm start).
    pub prev_deformation_displacement: Mat2,
    /// Set when the particle became numerically unstable or left the valid
    /// range; failed particles are skipped by transfers and removed at the
    /// next compaction.
    pub failed: bool,
    /// Diagnostic condition number of the affine matrix.
    pub condition_number: Fx,
}

/// The condition-number diagnostic of an affine matrix: `|trace| / |det|`,
/// saturated when the determinant is zero with a non-zero trace; the zero
/// matrix (a particle at rest) is perfectly conditioned rather than a
/// division hazard.
pub open spec fn spec_condition_number(c: Mat2) -> int {
    let det = c.spec_determinant();
    let tr = fx_clip(c.m00@ + c.m11@);
    let adet = if det >= 0 { det } else { -det };
    let atr = if tr >= 0 { tr } else { -tr };
    if adet == 0 {
        if atr == 0 {
            0
        } else {
            FX_MAX_RAW as int
        }
    } else {
        Fx::spec_div(atr, adet)
    }
}

/// Whether the end-of-step health check must flag this particle: an
/// ill-conditioned affine matrix, or a non-positive mass or reference
/// volume.
pub open spec fn spec_is_unhealthy(p: Particle) -> bool {
    spec_condition_number(p.affine_momentum_matrix) > CONDITION_LIMIT_RAW as int || p.mass@ <= 0
        || p.volume0@ <= 0
}

/// A particle after the health check: the condition number refreshed, the
/// failed flag absorbed any new failure, all other fields untouched.
pub open spec fn spec_health_updated(p: Particle) -> Particle {
    Particle {
        condition_number: Fx { raw: spec_condition_number(p.affine_momentum_matrix) as i64 },
        failed: p.failed || spec_is_unhealthy(p),
        ..p
    }
}

impl Particle {
    /// Every scalar field lies in the representable range.
    pub open spec fn wf(self) -> bool {
        &&& self.position.wf()
        &&& self.velocity.wf()
        &&& self.mass.wf()
        &&& self.volume0.wf()
        &&& self.radius0.wf()
        &&& self.affine_momentum_matrix.wf()
        &&& self.velocity_gradient.wf()
        &&& self.deformation_gradient.wf()
        &&& self.material_type.wf()
        &&& self.liquid_density.wf()
        &&& self.deformation_displacement.wf()
        &&& self.prev_deformation_displacement.wf()
        &&& self.condition_number.wf()
    }

    /// The mass bound (32768 units) under which the particle-to-grid
    /// scatter's extended-precision accumulators cannot overflow.
    pub open spec fn mass_bounded(self) -> bool {
        self.mass@ <= 0x8000_0000
    }

    /// A fresh particle at the origin: unit mass and volume, identity
    /// deformation, zero affine state.
    pub fn zeroed(material_type: MaterialType) -> (r: Particle)
        requires
            material_type.wf(),
        ensures
            r == spec_zeroed_particle(material_type),
            r.wf(),
            r.mass_bounded(),
    {
        Particle {
            position: Vec2::zero(),
            velocity: Vec2::zero(),
            mass: Fx::one(),
            volume0: Fx::one(),
            radius0: Fx::one(),
            affine_momentum_matrix: Mat2::zero(),
            velocity_gradient: Mat2::zero(),
            deformation_gradient: Mat2::identity(),
            material_type,
            grid_index: 0,
            liquid_density: Fx::one(),
            deformation_displacement: Mat2::zero(),
            prev_deformation_displacement: Mat2::zero(),
            failed: false,
            condition_number: Fx::one(),
        }
    }

    /// A fresh particle at `position`.
    pub fn new(position: Vec2, material_type: MaterialType) -> (r: Particle)
        requires
            position.wf(),
            material_type.wf(),
        ensures
            r == (Particle { position, ..spec_zeroed_particle(material_type) }),
            r.wf(),
            r.mass_bounded(),
    {
        let mut p = Particle::zeroed(material_type);
        p.position = position;
        proof {
            assert(p == Particle { position, ..spec_zeroed_particle(material_type) });
        }
        p
    }

    /// The particle with its velocity replaced.
    pub fn with_velocity(self, velocity: Vec2) -> (r: Particle)
        ensures
            r == (Particle { velocity, ..self }),
    {
        Particle { velocity, ..self }
    }

    /// The particle with its mass replaced.
    pub fn with_mass(self, mass: Fx) -> (r: Particle)
        ensures
            r == (Particle { mass, ..self }),
    {
        Particle { mass, ..self }
    }

    /// The particle with its reference radius replaced.
    pub fn with_radius(self, radius: Fx) -> (r: Particle)
        ensures
            r == (Particle { radius0: radius, ..self }),
    {
        Particle { radius0: radius, ..self }
    }

    /// A particle with the mass and reference volume of a disc of the given
    /// radius and density.
    pub fn with_density(radius: Fx, density: Fx) -> (r: Particle)
        requires
            radius.wf(),
            density.wf(),
        ensures
            r.volume0@ == Fx::spec_mul(Fx::spec_mul(FX_PI_RAW as int, radius@), radius@),
            r.mass@ == Fx::spec_mul(r.volume0@, density@),
            r.radius0 == radius,
            r == (Particle {
                mass: r.mass,
                volume0: r.volume0,
                radius0: radius,
                ..spec_zeroed_particle(r.material_type)
            }),
            r.material_type.wf(),
            r.wf(),
    {
        let volume = Fx { raw: FX_PI_RAW }.mul(radius).mul(radius);
        let mass = volume.mul(density);
        let mut p = Particle::zeroed(MaterialType::water());
        p.mass = mass;
        p.volume0 = volume;
        p.radius0 = radius;
        p
    }

    /// Volume at the given density, falling back to the reference volume
    /// when the density is not positive.
    pub fn current_volume(&self, density: Fx) -> (r: Fx)
        requires
            self.wf(),
            density.wf(),
        ensures
            r@ == if density@ > 0 {
                Fx::spec_div(self.mass@, density@)
            } else {
                self.volume0@
            },
            r.wf(),
    {
        if density.is_pos() {
            self.mass.div_safe(density)
        } else {
            self.volume0
        }
    }

    /// Density at the given volume; zero when the volume is not positive.
    pub fn density_from_volume(&self, volume: Fx) -> (r: Fx)
        requires
            self.wf(),
            volume.wf(),
        ensures
            r@ == if volume@ > 0 {
                Fx::spec_div(self.mass@, volume@)
            } else {
                0int
            },
            r.wf(),
    {
        if volume.is_pos() {
            self.mass.div_safe(volume)
        } else {
            Fx::zero()
        }
    }

    /// The density this particle was created at; zero when the reference
    /// volume is not positive.
    pub fn rest_density(&self) -> (r: Fx)
        requires
            self.wf(),
        ensures
            r@ == if self.volume0@ > 0 {
                Fx::spec_div(self.mass@, self.volume0@)
            } else {
                0int
            },
            r.wf(),
    {
        if self.volume0.is_pos() {
            self.mass.div_safe(self.volume0)
        } else {
            Fx::zero()
        }
    }

    /// The determinant of the deformation gradient: the local volume ratio.
    pub fn jacobian(&self) -> (r: Fx)
        requires
            self.wf(),
        ensures
            r@ == self.deformation_gradient.spec_determinant(),
            r.wf(),
    {
        self.deformation_gradient.determinant()
    }

    /// The current volume implied by the deformation gradient.
    pub fn current_volume_from_deformation(&self) -> (r: Fx)
        requires
            self.wf(),
        ensures
            r@ == Fx::spec_mul(
                self.volume0@,
                if self.deformation_gradient.spec_determinant() >= 0 {
                    self.deformation_gradient.spec_determinant()
                } else {
                    -self.deformation_gradient.spec_determinant()
                },
            ),
            r.wf(),
    {
        let jac = self.deformation_gradient.determinant();
        self.volume0.mul(jac.abs())
    }

    /// End-of-step health check: refresh the condition number of the affine
    /// matrix and flag the particle when it is ill-conditioned or its mass
    /// or reference volume stopped being positive.
    pub fn update_health(&mut self)
        requires
            old(self).wf(),
        ensures
            *final(self) == spec_health_updated(*old(self)),
            final(self).wf(),
    {
        let det = self.affine_momentum_matrix.determinant();
        let tr = self.affine_momentum_matrix.trace();
        let adet = det.abs();
        let atr = tr.abs();
        let cond: Fx = if adet.raw == 0 {
            if atr.raw == 0 {
                Fx::zero()
            } else {
                Fx { raw: FX_MAX_RAW }
            }
        } else {
            atr.div_safe(adet)
        };
        self.condition_number = cond;
        if cond.raw > CONDITION_LIMIT_RAW {
            self.failed = true;
        }
        if !self.mass.is_pos() || !self.volume0.is_pos() {
            self.failed = true;
        }
    }
}

/// What `Particle::zeroed` returns, as a specification value.
pub open spec fn spec_zeroed_particle(material_type: MaterialType) -> Particle {
    Particle {
        position: Vec2 { x: Fx { raw: 0 }, y: Fx { raw: 0 } },
        velocity: Vec2 { x: Fx { raw: 0 }, y: Fx { raw: 0 } },
        mass: Fx { raw: crate::fixed::FX_ONE },
        volume0: Fx { raw: crate::fixed::FX_ONE },
        radius0: Fx { raw: crate::fixed::FX_ONE },
        affine_momentum_matrix: Mat2::spec_zero(),
        velocity_gradient: Mat2::spec_zero(),
        deformation_gradient: Mat2::spec_identity(),
        material_type,
        grid_index: 0u64,
        liquid_density: Fx { raw: crate::fixed::FX_ONE },
        deformation_displacement: Mat2::spec_zero(),
        prev_deformation_displacement: Mat2::spec_zero(),
        failed: false,
        condition_number: Fx { raw: crate::fixed::FX_ONE },
    }
}

/// Run the health check over every particle.
pub fn update_particles_health(particles: &mut Vec<Particle>)
    requires
        forall|i: int| 0 <= i < old(particles)@.len() ==> #[trigger] old(particles)@[i].wf(),
    ensures
        final(particles)@.len() == old(particles)@.len(),
        forall|i: int|
            0 <= i < final(particles)@.len() ==> final(particles)@[i] == spec_health_updated(
                #[trigger] old(particles)@[i],
            ),
        forall|i: int| 0 <= i < final(particles)@.len() ==> (#[trigger] final(particles)@[i]).wf(),
{
    let n = particles.len();
    let mut i: usize = 0;
    while i < n
        invariant
            0 <= i <= n,
            n == particles@.len(),
            n == old(particles)@.len(),
            forall|j: int| i as int <= j < n as int ==> particles@[j] == old(particles)@[j],
            forall|j: int| i as int <= j < n as int ==> #[trigger] particles@[j].wf(),
            forall|j: int|
                0 <= j < i as int ==> particles@[j] == spec_health_updated(
                    #[trigger] old(particles)@[j],
                ),
            forall|j: int| 0 <= j < i as int ==> (#[trigger] particles@[j]).wf(),
        decreases n - i,
    {
        let mut p = particles[i];
        p.update_health();
        particles.set(i, p);
        i = i + 1;
    }
}

} // verus!
