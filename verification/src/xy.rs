//! 2D vectors over a [`VecInner`] scalar.
use vstd::prelude::*;

use crate::VecInner;
use crate::fx::Fixed64;
use crate::fx::cordic_cos;
use crate::fx::cordic_sin;
use crate::fx::cordic_sqrt;
use crate::fx::fx_checked_add_bits;
use crate::fx::fx_checked_mul_bits;
use crate::fx::fx_checked_sub_bits;
use crate::fx::fx_cos_bits;
use crate::fx::fx_div_m;
use crate::fx::fx_mul_m;
use crate::fx::fx_sin_bits;
use crate::fx::fx_sqrt_bits;
use crate::fx::lemma_div_then_mul_close;
use vstd::math::abs;

verus! {

/// A vector with exactly two ordered components `(x, y)`.
///
/// Values are immutable except through the in-place operators
/// [`XYVec::add_assign`] and [`XYVec::sub_assign`]; every other operation
/// returns a new vector.
#[derive(Clone, Copy, PartialEq, Debug)]
pub struct XYVec<T> {
    x: T,
    y: T,
}

impl<T: VecInner> XYVec<T> {
    /// The `x` component as a value.
    pub closed spec fn xv(self) -> T {
        self.x
    }

    /// The `y` component as a value.
    pub closed spec fn yv(self) -> T {
        self.y
    }

    /// The model of the `x` component.
    pub open spec fn xm(self) -> int {
        self.xv().model()
    }

    /// The model of the `y` component.
    pub open spec fn ym(self) -> int {
        self.yv().model()
    }

    /// The components in order.
    pub open spec fn to_seq(self) -> Seq<T> {
        seq![self.xv(), self.yv()]
    }

    /// Both components have the zero model.
    pub open spec fn is_zero(self) -> bool {
        self.xm() == 0 && self.ym() == 0
    }

    /// `self` is the componentwise sum of `v` and `w`.
    pub open spec fn is_sum_of(self, v: Self, w: Self) -> bool {
        self.xm() == v.xm() + w.xm() && self.ym() == v.ym() + w.ym()
    }

    /// `self` is the componentwise difference of `v` and `w`.
    pub open spec fn is_diff_of(self, v: Self, w: Self) -> bool {
        self.xm() == v.xm() - w.xm() && self.ym() == v.ym() - w.ym()
    }

    /// `self` is `v` scaled componentwise by the scalar `d`.
    pub open spec fn is_scaled_of(self, v: Self, d: T) -> bool {
        self.xm() == T::mul_model(v.xm(), d.model()) && self.ym() == T::mul_model(
            v.ym(),
            d.model(),
        )
    }

    /// The model of the dot product `x * ox + y * oy`.
    pub open spec fn dot_m(self, other: Self) -> int {
        T::mul_model(self.xm(), other.xm()) + T::mul_model(self.ym(), other.ym())
    }

    /// The model of the 2D cross product `x * oy - y * ox` (a pseudoscalar).
    pub open spec fn cross_m(self, other: Self) -> int {
        T::mul_model(self.xm(), other.ym()) - T::mul_model(self.ym(), other.xm())
    }

    /// The model of the squared Euclidean norm `x * x + y * y`.
    pub open spec fn l2sq_m(self) -> int {
        T::mul_model(self.xm(), self.xm()) + T::mul_model(self.ym(), self.ym())
    }

    /// The dot product of `self` and `other` is representable.
    pub open spec fn dot_ok(self, other: Self) -> bool {
        &&& T::mul_ok(self.xm(), other.xm())
        &&& T::mul_ok(self.ym(), other.ym())
        &&& T::add_ok(T::mul_model(self.xm(), other.xm()), T::mul_model(self.ym(), other.ym()))
    }

    /// The 2D cross product of `self` and `other` is representable.
    pub open spec fn cross_ok(self, other: Self) -> bool {
        &&& T::mul_ok(self.xm(), other.ym())
        &&& T::mul_ok(self.ym(), other.xm())
        &&& T::sub_ok(T::mul_model(self.xm(), other.ym()), T::mul_model(self.ym(), other.xm()))
    }

    /// The model of the scalar projection of `self` on `other`.
    pub open spec fn proj_m(self, other: Self) -> int {
        T::div_model(self.dot_m(other), other.dot_m(other))
    }

    pub fn new(inner: [T; 2]) -> (r: Self)
        ensures
            r.xv() == inner@[0],
            r.yv() == inner@[1],
    {
        XYVec { x: inner[0], y: inner[1] }
    }

    /// `x` component of XYVec
    pub fn x(&self) -> (r: T)
        ensures
            r == self.xv(),
    {
        self.x
    }

    /// `y` component of XYVec
    pub fn y(&self) -> (r: T)
        ensures
            r == self.yv(),
    {
        self.y
    }

    /// Both components multiplied by the scalar `d`.
    pub fn scale_by(&self, d: T) -> (r: Self)
        requires
            T::mul_ok(self.xm(), d.model()),
            T::mul_ok(self.ym(), d.model()),
        ensures
            r.is_scaled_of(*self, d),
    {
        let x = self.x.mul(d);
        let y = self.y.mul(d);
        Self::new([x, y])
    }

    /// Both components divided by the scalar `d`.  A zero divisor is not
    /// representable here and is excluded by `div_ok`.
    pub fn div_by(&self, d: T) -> (r: Self)
        requires
            T::div_ok(self.xm(), d.model()),
            T::div_ok(self.ym(), d.model()),
        ensures
            r.xm() == T::div_model(self.xm(), d.model()),
            r.ym() == T::div_model(self.ym(), d.model()),
    {
        let x = self.x.div(d);
        let y = self.y.div(d);
        Self::new([x, y])
    }

    /// The plain signed sum of the components, `x + y`.  Despite the name
    /// this is not the mathematical L1 norm: components are not taken by
    /// absolute value, so mixed signs cancel.
    pub fn l1_norm(&self) -> (r: T)
        requires
            T::add_ok(self.xm(), self.ym()),
        ensures
            r.model() == self.xm() + self.ym(),
    {
        self.x.add(self.y)
    }

    /// The squared Euclidean norm, `x * x + y * y`.
    pub fn l2_norm_sqd(&self) -> (r: T)
        requires
            self.dot_ok(*self),
        ensures
            r.model() == self.l2sq_m(),
    {
        let xx = self.x.mul(self.x);
        let yy = self.y.mul(self.y);
        xx.add(yy)
    }

    /// The 2D cross product `x * oy - y * ox`, a pseudoscalar.
    pub fn cross_prod(&self, other: Self) -> (r: T)
        requires
            self.cross_ok(other),
        ensures
            r.model() == self.cross_m(other),
    {
        let a = self.x.mul(other.y);
        let b = self.y.mul(other.x);
        a.sub(b)
    }

    /// The square of the 2D cross product.
    pub fn cross_prod_sqd(&self, other: Self) -> (r: T)
        requires
            self.cross_ok(other),
            T::mul_ok(self.cross_m(other), self.cross_m(other)),
        ensures
            r.model() == T::mul_model(self.cross_m(other), self.cross_m(other)),
    {
        let c = self.cross_prod(other);
        c.mul(c)
    }

    /// The dot product `x * ox + y * oy`.
    pub fn dot_prod(&self, other: Self) -> (r: T)
        requires
            self.dot_ok(other),
        ensures
            r.model() == self.dot_m(other),
    {
        let a = self.x.mul(other.x);
        let b = self.y.mul(other.y);
        a.add(b)
    }

    /// The componentwise sum with the loose scalars `(x, y)`.
    pub fn translate_by(&self, x: T, y: T) -> (r: Self)
        requires
            T::add_ok(self.xm(), x.model()),
            T::add_ok(self.ym(), y.model()),
        ensures
            r.xm() == self.xm() + x.model(),
            r.ym() == self.ym() + y.model(),
    {
        let new_x = self.x.add(x);
        let new_y = self.y.add(y);
        XYVec { x: new_x, y: new_y }
    }

    /// The plain signed sum of the components; an alias of [`XYVec::l1_norm`].
    pub fn sum(&self) -> (r: T)
        requires
            T::add_ok(self.xm(), self.ym()),
        ensures
            r.model() == self.xm() + self.ym(),
    {
        self.x.add(self.y)
    }

    /// The components in order, for componentwise transforms.
    pub fn iter(&self) -> (r: Vec<T>)
        ensures
            r@ == self.to_seq(),
    {
        let mut v: Vec<T> = Vec::new();
        v.push(self.x);
        v.push(self.y);
        proof {
            assert(v@ =~= self.to_seq());
        }
        v
    }

    /// The vector made of the first two elements of `v`; elements beyond
    /// the second are ignored.  Fewer than two elements violate the arity
    /// of the type and are excluded here; [`XYVec::try_from_iter`] reports
    /// that case as `None` instead.
    pub fn from_iter(v: &Vec<T>) -> (r: Self)
        requires
            v@.len() >= 2,
        ensures
            r.xv() == v@[0],
            r.yv() == v@[1],
    {
        XYVec { x: v[0], y: v[1] }
    }

    /// As [`XYVec::from_iter`], but an arity violation (fewer than two
    /// elements) yields `None`.
    pub fn try_from_iter(v: &Vec<T>) -> (r: Option<Self>)
        ensures
            r matches Some(w) ==> v@.len() >= 2 && w.xv() == v@[0] && w.yv() == v@[1],
            r is None ==> v@.len() < 2,
    {
        if v.len() < 2 {
            None
        } else {
            Some(Self::from_iter(v))
        }
    }

    /// The scalar projection of `self` on `other`: `dot(self, other)`
    /// divided by `dot(other, other)`.  A zero `other` makes the divisor
    /// zero, which the scalar's `div_ok` excludes.
    pub fn scalar_projected_on(&self, other: Self) -> (r: T)
        requires
            self.dot_ok(other),
            other.dot_ok(other),
            T::div_ok(self.dot_m(other), other.dot_m(other)),
        ensures
            r.model() == self.proj_m(other),
    {
        let dot_ab = self.dot_prod(other);
        let dot_bb = other.dot_prod(other);
        dot_ab.div(dot_bb)
    }

    /// The vector projection of `self` on `other`: `other` scaled by the
    /// scalar projection.
    pub fn projected_on(&self, other: Self) -> (r: Self)
        requires
            self.dot_ok(other),
            other.dot_ok(other),
            T::div_ok(self.dot_m(other), other.dot_m(other)),
            T::mul_ok(other.xm(), self.proj_m(other)),
            T::mul_ok(other.ym(), self.proj_m(other)),
        ensures
            r.xm() == T::mul_model(other.xm(), self.proj_m(other)),
            r.ym() == T::mul_model(other.ym(), self.proj_m(other)),
    {
        let scalar = self.scalar_projected_on(other);
        other.scale_by(scalar)
    }

    /// The componentwise sum of `self` and `other`.
    pub fn add(self, other: Self) -> (r: Self)
        requires
            T::add_ok(self.xm(), other.xm()),
            T::add_ok(self.ym(), other.ym()),
        ensures
            r.is_sum_of(self, other),
    {
        let x = self.x.add(other.x);
        let y = self.y.add(other.y);
        Self::new([x, y])
    }

    /// The componentwise difference of `self` and `other`.
    pub fn sub(self, other: Self) -> (r: Self)
        requires
            T::sub_ok(self.xm(), other.xm()),
            T::sub_ok(self.ym(), other.ym()),
        ensures
            r.is_diff_of(self, other),
    {
        let x = self.x.sub(other.x);
        let y = self.y.sub(other.y);
        Self::new([x, y])
    }

    /// The componentwise negation, for scalars that support negation.
    pub fn neg(self) -> (r: Self)
        requires
            T::neg_ok(self.xm()),
            T::neg_ok(self.ym()),
        ensures
            r.xm() == -self.xm(),
            r.ym() == -self.ym(),
    {
        Self::new([self.x.neg(), self.y.neg()])
    }

    /// In-place componentwise sum.
    pub fn add_assign(&mut self, other: Self)
        requires
            T::add_ok(old(self).xm(), other.xm()),
            T::add_ok(old(self).ym(), other.ym()),
        ensures
            final(self).is_sum_of(*old(self), other),
    {
        self.x = self.x.add(other.x);
        self.y = self.y.add(other.y);
    }

    /// In-place componentwise difference.
    pub fn sub_assign(&mut self, other: Self)
        requires
            T::sub_ok(old(self).xm(), other.xm()),
            T::sub_ok(old(self).ym(), other.ym()),
        ensures
            final(self).is_diff_of(*old(self), other),
    {
        self.x = self.x.sub(other.x);
        self.y = self.y.sub(other.y);
    }

    /// The vector with both components at the additive identity.
    pub fn zeroes() -> (r: Self)
        ensures
            r.is_zero(),
    {
        XYVec { x: T::zero(), y: T::zero() }
    }

    /// Vector addition is commutative: summing in either order gives the
    /// same vector.
    pub proof fn lemma_add_comm(v: Self, w: Self, r1: Self, r2: Self)
        requires
            r1.is_sum_of(v, w),
            r2.is_sum_of(w, v),
        ensures
            r1 == r2,
    {
        T::lemma_model_injective(r1.xv(), r2.xv());
        T::lemma_model_injective(r1.yv(), r2.yv());
    }

    /// Vector addition is associative: `(v + w) + u` equals `v + (w + u)`.
    pub proof fn lemma_add_assoc(
        v: Self,
        w: Self,
        u: Self,
        vw: Self,
        vw_u: Self,
        wu: Self,
        v_wu: Self,
    )
        requires
            vw.is_sum_of(v, w),
            vw_u.is_sum_of(vw, u),
            wu.is_sum_of(w, u),
            v_wu.is_sum_of(v, wu),
        ensures
            vw_u == v_wu,
    {
        T::lemma_model_injective(vw_u.xv(), v_wu.xv());
        T::lemma_model_injective(vw_u.yv(), v_wu.yv());
    }

    /// The zero vector is neutral for vector addition.
    pub proof fn lemma_add_zero(v: Self, z: Self, r: Self)
        requires
            z.is_zero(),
            r.is_sum_of(v, z),
        ensures
            r == v,
    {
        T::lemma_model_injective(r.xv(), v.xv());
        T::lemma_model_injective(r.yv(), v.yv());
    }

    /// Scaling by the multiplicative identity changes nothing.
    pub proof fn lemma_scale_one(v: Self, d: T, r: Self)
        requires
            d.model() == T::one_v(),
            r.is_scaled_of(v, d),
        ensures
            r == v,
    {
        T::lemma_mul_one(v.xm());
        T::lemma_mul_one(v.ym());
        T::lemma_model_injective(r.xv(), v.xv());
        T::lemma_model_injective(r.yv(), v.yv());
    }

    /// Scaling by the additive identity yields the zero vector.
    pub proof fn lemma_scale_zero(v: Self, d: T, r: Self)
        requires
            d.model() == 0,
            r.is_scaled_of(v, d),
        ensures
            r.is_zero(),
    {
        T::lemma_mul_zero(v.xm());
        T::lemma_mul_zero(v.ym());
    }

    /// The dot product is symmetric.
    pub proof fn lemma_dot_comm(v: Self, w: Self)
        ensures
            v.dot_m(w) == w.dot_m(v),
    {
        T::lemma_mul_comm(v.xm(), w.xm());
        T::lemma_mul_comm(v.ym(), w.ym());
    }

    /// The 2D cross product is antisymmetric.
    pub proof fn lemma_cross_antisym(v: Self, w: Self)
        ensures
            v.cross_m(w) == -w.cross_m(v),
    {
        T::lemma_mul_comm(v.xm(), w.ym());
        T::lemma_mul_comm(v.ym(), w.xm());
    }

    /// The 2D cross product of a vector with itself is zero.
    pub proof fn lemma_cross_self(v: Self)
        ensures
            v.cross_m(v) == 0,
    {
        T::lemma_mul_comm(v.xm(), v.ym());
    }

    /// The squared Euclidean norm is the dot product of a vector with
    /// itself.
    pub proof fn lemma_l2sq_is_dot_self(v: Self)
        ensures
            v.l2sq_m() == v.dot_m(v),
    {
    }

    /// Collecting a vector's own iterated components back into a vector of
    /// the same type yields the original vector.
    pub proof fn lemma_iter_round_trip(v: Self, r: Self)
        requires
            r.xv() == v.to_seq()[0],
            r.yv() == v.to_seq()[1],
        ensures
            r == v,
    {
    }
}

impl XYVec<Fixed64> {
    /// Angles on which the CORDIC backend is used; beyond this the
    /// step-by-step angle reduction would be unreasonably long.
    pub open spec fn angle_ok(theta: int) -> bool {
        -0x8000_0000 <= theta <= 0x8000_0000
    }

    /// The model of the `x` component of `self` rotated by the angle with
    /// model `theta`: `x * cos(theta) - y * sin(theta)`.
    pub open spec fn rot_x_m(self, theta: int) -> int {
        fx_mul_m(self.xm(), cordic_cos(theta)) - fx_mul_m(self.ym(), cordic_sin(theta))
    }

    /// The model of the `y` component of `self` rotated by the angle with
    /// model `theta`: `x * sin(theta) + y * cos(theta)`.
    pub open spec fn rot_y_m(self, theta: int) -> int {
        fx_mul_m(self.xm(), cordic_sin(theta)) + fx_mul_m(self.ym(), cordic_cos(theta))
    }

    /// The rotation of `self` by `theta` is representable.
    pub open spec fn rot_ok(self, theta: int) -> bool {
        &&& Self::angle_ok(theta)
        &&& i64::MIN <= fx_mul_m(self.xm(), cordic_cos(theta)) <= i64::MAX
        &&& i64::MIN <= fx_mul_m(self.ym(), cordic_sin(theta)) <= i64::MAX
        &&& i64::MIN <= self.rot_x_m(theta) <= i64::MAX
        &&& i64::MIN <= fx_mul_m(self.xm(), cordic_sin(theta)) <= i64::MAX
        &&& i64::MIN <= fx_mul_m(self.ym(), cordic_cos(theta)) <= i64::MAX
        &&& i64::MIN <= self.rot_y_m(theta) <= i64::MAX
    }

    /// The squared norm of `self` is representable and small enough for
    /// the CORDIC square root.
    pub open spec fn l2_norm_ok(self) -> bool {
        &&& i64::MIN <= fx_mul_m(self.xm(), self.xm()) <= i64::MAX
        &&& i64::MIN <= fx_mul_m(self.ym(), self.ym()) <= i64::MAX
        &&& self.l2sq_m() < 0x4000_0000_0000_0000
    }

    /// The Euclidean norm, computed by the CORDIC square root; `None`
    /// exactly when the squared norm is not representable or out of the
    /// square root's range.
    pub fn l2_norm(&self) -> (r: Option<Fixed64>)
        ensures
            r matches Some(n) ==> self.l2_norm_ok() && n.model() == cordic_sqrt(self.l2sq_m()),
            r is None ==> !self.l2_norm_ok(),
    {
        let xb = self.x.to_bits();
        let yb = self.y.to_bits();
        proof {
            assert(xb * xb >= 0) by (nonlinear_arith);
            assert(yb * yb >= 0) by (nonlinear_arith);
            vstd::arithmetic::div_mod::lemma_div_pos_is_pos(xb * xb, 65536);
            vstd::arithmetic::div_mod::lemma_div_pos_is_pos(yb * yb, 65536);
        }
        let xx = match fx_checked_mul_bits(xb, xb) {
            Some(v) => v,
            None => {
                return None;
            },
        };
        let yy = match fx_checked_mul_bits(yb, yb) {
            Some(v) => v,
            None => {
                return None;
            },
        };
        let sq = match fx_checked_add_bits(xx, yy) {
            Some(v) => v,
            None => {
                return None;
            },
        };
        if sq >= 0x4000_0000_0000_0000 {
            return None;
        }
        Some(Fixed64::from_bits(fx_sqrt_bits(sq)))
    }

    /// The vector rotated by `theta` radians around the origin, by the
    /// standard 2D rotation matrix with the CORDIC sine and cosine; the
    /// result is the rotated point itself, not its displacement from
    /// `self`.  `None` exactly when the angle is out of the backend's
    /// range or an intermediate value is not representable.
    pub fn rotated_by(&self, theta: Fixed64) -> (r: Option<Self>)
        ensures
            r matches Some(w) ==> self.rot_ok(theta.model()) && w.xm() == self.rot_x_m(
                theta.model(),
            ) && w.ym() == self.rot_y_m(theta.model()),
            r is None ==> !self.rot_ok(theta.model()),
    {
        let tb = theta.to_bits();
        if tb < -0x8000_0000 || tb > 0x8000_0000 {
            return None;
        }
        let c = fx_cos_bits(tb);
        let s = fx_sin_bits(tb);
        let xb = self.x.to_bits();
        let yb = self.y.to_bits();
        let xc = match fx_checked_mul_bits(xb, c) {
            Some(v) => v,
            None => {
                return None;
            },
        };
        let ys = match fx_checked_mul_bits(yb, s) {
            Some(v) => v,
            None => {
                return None;
            },
        };
        let nx = match fx_checked_sub_bits(xc, ys) {
            Some(v) => v,
            None => {
                return None;
            },
        };
        let xs = match fx_checked_mul_bits(xb, s) {
            Some(v) => v,
            None => {
                return None;
            },
        };
        let yc = match fx_checked_mul_bits(yb, c) {
            Some(v) => v,
            None => {
                return None;
            },
        };
        let ny = match fx_checked_add_bits(xs, yc) {
            Some(v) => v,
            None => {
                return None;
            },
        };
        Some(XYVec { x: Fixed64::from_bits(nx), y: Fixed64::from_bits(ny) })
    }

    /// Dividing by a nonzero scalar and scaling back by it approximates
    /// the original vector componentwise, to within the divisor's
    /// magnitude plus one fractional unit.
    pub proof fn lemma_div_scale_round_trip(v: Self, d: Fixed64, q: Self, r: Self)
        requires
            d.model() != 0,
            q.xm() == fx_div_m(v.xm(), d.model()),
            q.ym() == fx_div_m(v.ym(), d.model()),
            r.is_scaled_of(q, d),
        ensures
            (abs(v.xm() - r.xm()) as int) * 65536 < abs(d.model()) + 65536,
            (abs(v.ym() - r.ym()) as int) * 65536 < abs(d.model()) + 65536,
    {
        lemma_div_then_mul_close(v.xm(), d.model());
        lemma_div_then_mul_close(v.ym(), d.model());
    }
}

} // verus!

