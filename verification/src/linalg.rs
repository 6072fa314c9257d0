//! Fixed-size 2D vector and matrix primitives over fixed-point scalars.
//!
//! Matrices are row-major: `m01` is row 0, column 1. Every operation's
//! contract states the exact component-level result over the scalar
//! specifications of [`crate::fixed::Fx`].

use vstd::prelude::*;
use crate::fixed::{Fx, fx_clip};

verus! {

/// A 2D vector of fixed-point scalars.
#[derive(Clone, Copy, PartialEq, Eq, Structural, Debug)]
pub struct Vec2 {
    pub x: Fx,
    pub y: Fx,
}

/// A 2x2 matrix of fixed-point scalars, row-major.
#[derive(Clone, Copy, PartialEq, Eq, Structural, Debug)]
pub struct Mat2 {
    pub m00: Fx,
    pub m01: Fx,
    pub m10: Fx,
    pub m11: Fx,
}

impl Vec2 {
    /// Both components lie in the representable scalar range.
    pub open spec fn wf(self) -> bool {
        self.x.wf() && self.y.wf()
    }

    /// Specification twin of `add`.
    pub open spec fn spec_add(a: Vec2, b: Vec2) -> Vec2 {
        Vec2 {
            x: Fx { raw: fx_clip(a.x@ + b.x@) as i64 },
            y: Fx { raw: fx_clip(a.y@ + b.y@) as i64 },
        }
    }

    /// Specification twin of `sub`.
    pub open spec fn spec_sub(a: Vec2, b: Vec2) -> Vec2 {
        Vec2 {
            x: Fx { raw: fx_clip(a.x@ - b.x@) as i64 },
            y: Fx { raw: fx_clip(a.y@ - b.y@) as i64 },
        }
    }

    /// Specification twin of `scale`.
    pub open spec fn spec_scale(a: Vec2, s: Fx) -> Vec2 {
        Vec2 {
            x: Fx { raw: Fx::spec_mul(a.x@, s@) as i64 },
            y: Fx { raw: Fx::spec_mul(a.y@, s@) as i64 },
        }
    }

    /// The zero vector.
    pub fn zero() -> (r: Vec2)
        ensures
            r.x@ == 0 && r.y@ == 0,
            r.wf(),
    {
        Vec2 { x: Fx::zero(), y: Fx::zero() }
    }

    /// Build a vector from two scalars.
    pub fn new(x: Fx, y: Fx) -> (r: Vec2)
        ensures
            r.x == x && r.y == y,
    {
        Vec2 { x, y }
    }

    /// Component-wise saturating sum.
    pub fn add(self, o: Vec2) -> (r: Vec2)
        requires
            self.wf(),
            o.wf(),
        ensures
            r.x@ == fx_clip(self.x@ + o.x@),
            r.y@ == fx_clip(self.y@ + o.y@),
            r == Vec2::spec_add(self, o),
            r.wf(),
    {
        Vec2 { x: self.x.add(o.x), y: self.y.add(o.y) }
    }

    /// Component-wise saturating difference.
    pub fn sub(self, o: Vec2) -> (r: Vec2)
        requires
            self.wf(),
            o.wf(),
        ensures
            r.x@ == fx_clip(self.x@ - o.x@),
            r.y@ == fx_clip(self.y@ - o.y@),
            r == Vec2::spec_sub(self, o),
            r.wf(),
    {
        Vec2 { x: self.x.sub(o.x), y: self.y.sub(o.y) }
    }

    /// Multiply both components by a scalar.
    pub fn scale(self, s: Fx) -> (r: Vec2)
        requires
            self.wf(),
            s.wf(),
        ensures
            r.x@ == Fx::spec_mul(self.x@, s@),
            r.y@ == Fx::spec_mul(self.y@, s@),
            r == Vec2::spec_scale(self, s),
            r.wf(),
    {
        Vec2 { x: self.x.mul(s), y: self.y.mul(s) }
    }
}

/// Specification twin of `outer_product`.
pub open spec fn spec_outer_product(a: Vec2, b: Vec2) -> Mat2 {
    Mat2 {
        m00: Fx { raw: Fx::spec_mul(a.x@, b.x@) as i64 },
        m01: Fx { raw: Fx::spec_mul(a.x@, b.y@) as i64 },
        m10: Fx { raw: Fx::spec_mul(a.y@, b.x@) as i64 },
        m11: Fx { raw: Fx::spec_mul(a.y@, b.y@) as i64 },
    }
}

/// The outer product `a b^T` of two vectors.
pub fn outer_product(a: Vec2, b: Vec2) -> (r: Mat2)
    requires
        a.wf(),
        b.wf(),
    ensures
        r.m00@ == Fx::spec_mul(a.x@, b.x@),
        r.m01@ == Fx::spec_mul(a.x@, b.y@),
        r.m10@ == Fx::spec_mul(a.y@, b.x@),
        r.m11@ == Fx::spec_mul(a.y@, b.y@),
        r == spec_outer_product(a, b),
        r.wf(),
{
    Mat2 { m00: a.x.mul(b.x), m01: a.x.mul(b.y), m10: a.y.mul(b.x), m11: a.y.mul(b.y) }
}

impl Mat2 {
    /// All four entries lie in the representable scalar range.
    pub open spec fn wf(self) -> bool {
        self.m00.wf() && self.m01.wf() && self.m10.wf() && self.m11.wf()
    }

    /// Specification twin of `add`.
    pub open spec fn spec_madd(a: Mat2, b: Mat2) -> Mat2 {
        Mat2 {
            m00: Fx { raw: fx_clip(a.m00@ + b.m00@) as i64 },
            m01: Fx { raw: fx_clip(a.m01@ + b.m01@) as i64 },
            m10: Fx { raw: fx_clip(a.m10@ + b.m10@) as i64 },
            m11: Fx { raw: fx_clip(a.m11@ + b.m11@) as i64 },
        }
    }

    /// Specification twin of `sub`.
    pub open spec fn spec_msub(a: Mat2, b: Mat2) -> Mat2 {
        Mat2 {
            m00: Fx { raw: fx_clip(a.m00@ - b.m00@) as i64 },
            m01: Fx { raw: fx_clip(a.m01@ - b.m01@) as i64 },
            m10: Fx { raw: fx_clip(a.m10@ - b.m10@) as i64 },
            m11: Fx { raw: fx_clip(a.m11@ - b.m11@) as i64 },
        }
    }

    /// Specification twin of `scale`.
    pub open spec fn spec_mscale(a: Mat2, s: Fx) -> Mat2 {
        Mat2 {
            m00: Fx { raw: Fx::spec_mul(a.m00@, s@) as i64 },
            m01: Fx { raw: Fx::spec_mul(a.m01@, s@) as i64 },
            m10: Fx { raw: Fx::spec_mul(a.m10@, s@) as i64 },
            m11: Fx { raw: Fx::spec_mul(a.m11@, s@) as i64 },
        }
    }

    /// Specification twin of `mul_vec`.
    pub open spec fn spec_mul_vec(a: Mat2, v: Vec2) -> Vec2 {
        Vec2 {
            x: Fx { raw: fx_clip(Fx::spec_mul(a.m00@, v.x@) + Fx::spec_mul(a.m01@, v.y@)) as i64 },
            y: Fx { raw: fx_clip(Fx::spec_mul(a.m10@, v.x@) + Fx::spec_mul(a.m11@, v.y@)) as i64 },
        }
    }

    /// Specification twin of `mul_mat`.
    pub open spec fn spec_mul_mat(a: Mat2, b: Mat2) -> Mat2 {
        Mat2 {
            m00: Fx {
                raw: fx_clip(Fx::spec_mul(a.m00@, b.m00@) + Fx::spec_mul(a.m01@, b.m10@)) as i64,
            },
            m01: Fx {
                raw: fx_clip(Fx::spec_mul(a.m00@, b.m01@) + Fx::spec_mul(a.m01@, b.m11@)) as i64,
            },
            m10: Fx {
                raw: fx_clip(Fx::spec_mul(a.m10@, b.m00@) + Fx::spec_mul(a.m11@, b.m10@)) as i64,
            },
            m11: Fx {
                raw: fx_clip(Fx::spec_mul(a.m10@, b.m01@) + Fx::spec_mul(a.m11@, b.m11@)) as i64,
            },
        }
    }

    /// The zero matrix, as a specification value.
    pub open spec fn spec_zero() -> Mat2 {
        Mat2 { m00: Fx { raw: 0 }, m01: Fx { raw: 0 }, m10: Fx { raw: 0 }, m11: Fx { raw: 0 } }
    }

    /// The identity matrix, as a specification value.
    pub open spec fn spec_identity() -> Mat2 {
        Mat2 {
            m00: Fx { raw: crate::fixed::FX_ONE },
            m01: Fx { raw: 0 },
            m10: Fx { raw: 0 },
            m11: Fx { raw: crate::fixed::FX_ONE },
        }
    }

    /// The zero matrix.
    pub fn zero() -> (r: Mat2)
        ensures
            r == Mat2::spec_zero(),
            r.wf(),
    {
        Mat2 { m00: Fx::zero(), m01: Fx::zero(), m10: Fx::zero(), m11: Fx::zero() }
    }

    /// The identity matrix.
    pub fn identity() -> (r: Mat2)
        ensures
            r == Mat2::spec_identity(),
            r.wf(),
    {
        Mat2 { m00: Fx::one(), m01: Fx::zero(), m10: Fx::zero(), m11: Fx::one() }
    }

    /// The diagonal matrix with `s` on both diagonal entries.
    pub fn diagonal(s: Fx) -> (r: Mat2)
        requires
            s.wf(),
        ensures
            r.m00 == s && r.m11 == s,
            r.m01@ == 0 && r.m10@ == 0,
            r.wf(),
    {
        Mat2 { m00: s, m01: Fx::zero(), m10: Fx::zero(), m11: s }
    }

    /// Entry-wise saturating sum.
    pub fn add(self, o: Mat2) -> (r: Mat2)
        requires
            self.wf(),
            o.wf(),
        ensures
            r.m00@ == fx_clip(self.m00@ + o.m00@),
            r.m01@ == fx_clip(self.m01@ + o.m01@),
            r.m10@ == fx_clip(self.m10@ + o.m10@),
            r.m11@ == fx_clip(self.m11@ + o.m11@),
            r == Mat2::spec_madd(self, o),
            r.wf(),
    {
        Mat2 {
            m00: self.m00.add(o.m00),
            m01: self.m01.add(o.m01),
            m10: self.m10.add(o.m10),
            m11: self.m11.add(o.m11),
        }
    }

    /// Entry-wise saturating difference.
    pub fn sub(self, o: Mat2) -> (r: Mat2)
        requires
            self.wf(),
            o.wf(),
        ensures
            r.m00@ == fx_clip(self.m00@ - o.m00@),
            r.m01@ == fx_clip(self.m01@ - o.m01@),
            r.m10@ == fx_clip(self.m10@ - o.m10@),
            r.m11@ == fx_clip(self.m11@ - o.m11@),
            r == Mat2::spec_msub(self, o),
            r.wf(),
    {
        Mat2 {
            m00: self.m00.sub(o.m00),
            m01: self.m01.sub(o.m01),
            m10: self.m10.sub(o.m10),
            m11: self.m11.sub(o.m11),
        }
    }

    /// Multiply every entry by a scalar.
    pub fn scale(self, s: Fx) -> (r: Mat2)
        requires
            self.wf(),
            s.wf(),
        ensures
            r.m00@ == Fx::spec_mul(self.m00@, s@),
            r.m01@ == Fx::spec_mul(self.m01@, s@),
            r.m10@ == Fx::spec_mul(self.m10@, s@),
            r.m11@ == Fx::spec_mul(self.m11@, s@),
            r == Mat2::spec_mscale(self, s),
            r.wf(),
    {
        Mat2 { m00: self.m00.mul(s), m01: self.m01.mul(s), m10: self.m10.mul(s), m11: self.m11.mul(s) }
    }

    /// The sum of the diagonal entries.
    pub fn trace(self) -> (r: Fx)
        requires
            self.wf(),
        ensures
            r@ == fx_clip(self.m00@ + self.m11@),
            r.wf(),
    {
        self.m00.add(self.m11)
    }

    /// Rows and columns exchanged.
    pub fn transpose(self) -> (r: Mat2)
        requires
            self.wf(),
        ensures
            r.m00 == self.m00 && r.m01 == self.m10 && r.m10 == self.m01 && r.m11 == self.m11,
            r.wf(),
    {
        Mat2 { m00: self.m00, m01: self.m10, m10: self.m01, m11: self.m11 }
    }

    /// Exact specification of the determinant `m00*m11 - m01*m10`.
    pub open spec fn spec_determinant(self) -> int {
        fx_clip(Fx::spec_mul(self.m00@, self.m11@) - Fx::spec_mul(self.m01@, self.m10@))
    }

    /// The determinant.
    pub fn determinant(self) -> (r: Fx)
        requires
            self.wf(),
        ensures
            r@ == self.spec_determinant(),
            r.wf(),
    {
        self.m00.mul(self.m11).sub(self.m01.mul(self.m10))
    }

    /// Matrix-vector product.
    pub fn mul_vec(self, v: Vec2) -> (r: Vec2)
        requires
            self.wf(),
            v.wf(),
        ensures
            r.x@ == fx_clip(Fx::spec_mul(self.m00@, v.x@) + Fx::spec_mul(self.m01@, v.y@)),
            r.y@ == fx_clip(Fx::spec_mul(self.m10@, v.x@) + Fx::spec_mul(self.m11@, v.y@)),
            r == Mat2::spec_mul_vec(self, v),
            r.wf(),
    {
        Vec2 {
            x: self.m00.mul(v.x).add(self.m01.mul(v.y)),
            y: self.m10.mul(v.x).add(self.m11.mul(v.y)),
        }
    }

    /// Matrix-matrix product.
    pub fn mul_mat(self, o: Mat2) -> (r: Mat2)
        requires
            self.wf(),
            o.wf(),
        ensures
            r.m00@ == fx_clip(Fx::spec_mul(self.m00@, o.m00@) + Fx::spec_mul(self.m01@, o.m10@)),
            r.m01@ == fx_clip(Fx::spec_mul(self.m00@, o.m01@) + Fx::spec_mul(self.m01@, o.m11@)),
            r.m10@ == fx_clip(Fx::spec_mul(self.m10@, o.m00@) + Fx::spec_mul(self.m11@, o.m10@)),
            r.m11@ == fx_clip(Fx::spec_mul(self.m10@, o.m01@) + Fx::spec_mul(self.m11@, o.m11@)),
            r == Mat2::spec_mul_mat(self, o),
            r.wf(),
    {
        Mat2 {
            m00: self.m00.mul(o.m00).add(self.m01.mul(o.m10)),
            m01: self.m00.mul(o.m01).add(self.m01.mul(o.m11)),
            m10: self.m10.mul(o.m00).add(self.m11.mul(o.m10)),
            m11: self.m10.mul(o.m01).add(self.m11.mul(o.m11)),
        }
    }
}

/// A 2x2 tensor split into its deviatoric (traceless) and spherical parts;
/// the spherical part is half the trace, and recomposition adds it back to
/// the diagonal of the deviatoric part.
#[derive(Clone, Copy, PartialEq, Eq, Structural, Debug)]
pub struct DecomposedTensor {
    pub deviatoric_part: Mat2,
    pub spherical_part: Fx,
}

impl DecomposedTensor {
    /// Both parts are well formed.
    pub open spec fn wf(self) -> bool {
        self.deviatoric_part.wf() && self.spherical_part.wf()
    }

    /// Exact specification of the spherical part: half the trace, rounded
    /// toward zero.
    pub open spec fn spec_spherical(tensor: Mat2) -> int {
        Fx::spec_mul(fx_clip(tensor.m00@ + tensor.m11@), crate::fixed::FX_HALF as int)
    }

    /// Split a tensor into deviatoric and spherical parts.
    pub fn decompose(tensor: &Mat2) -> (r: DecomposedTensor)
        requires
            tensor.wf(),
        ensures
            r.spherical_part@ == DecomposedTensor::spec_spherical(*tensor),
            r.deviatoric_part.m00@ == fx_clip(tensor.m00@ - r.spherical_part@),
            r.deviatoric_part.m11@ == fx_clip(tensor.m11@ - r.spherical_part@),
            r.deviatoric_part.m01 == tensor.m01,
            r.deviatoric_part.m10 == tensor.m10,
            r.wf(),
    {
        let spherical = tensor.trace().mul(Fx { raw: crate::fixed::FX_HALF });
        DecomposedTensor {
            deviatoric_part: Mat2 {
                m00: tensor.m00.sub(spherical),
                m01: tensor.m01,
                m10: tensor.m10,
                m11: tensor.m11.sub(spherical),
            },
            spherical_part: spherical,
        }
    }

    /// Add the spherical part back onto the deviatoric diagonal.
    pub fn recompose(&self) -> (r: Mat2)
        requires
            self.wf(),
        ensures
            r.m00@ == fx_clip(self.deviatoric_part.m00@ + self.spherical_part@),
            r.m11@ == fx_clip(self.deviatoric_part.m11@ + self.spherical_part@),
            r.m01 == self.deviatoric_part.m01,
            r.m10 == self.deviatoric_part.m10,
            r.wf(),
    {
        Mat2 {
            m00: self.deviatoric_part.m00.add(self.spherical_part),
            m01: self.deviatoric_part.m01,
            m10: self.deviatoric_part.m10,
            m11: self.deviatoric_part.m11.add(self.spherical_part),
        }
    }
}

} // verus!
