//! 3D vectors over a [`VecInner`] scalar.
use vstd::prelude::*;

use vstd::arithmetic::div_mod::lemma_fundamental_div_mod;
use vstd::math::abs;

use crate::VecInner;
use crate::fx::Fixed64;
use crate::fx::cordic_sqrt;
use crate::fx::fx_checked_add_bits;
use crate::fx::fx_checked_mul_bits;
use crate::fx::fx_div_m;
use crate::fx::fx_mul_m;
use crate::fx::fx_sqrt_bits;
use crate::fx::lemma_div_then_mul_close;
use crate::fx::lemma_fx_mul_exact;

verus! {

/// A vector with exactly three ordered components `(x, y, z)`.
///
/// Structurally parallel to [`crate::XYVec`], with a true 3D cross product
/// returning a vector; rotation is not provided in 3D.
#[derive(Clone, Copy, PartialEq, Debug)]
pub struct XYZVec<T> {
    x: T,
    y: T,
    z: T,
}

impl<T: VecInner> XYZVec<T> {
    /// The `x` component as a value.
    pub closed spec fn xv(self) -> T {
        self.x
    }

    /// The `y` component as a value.
    pub closed spec fn yv(self) -> T {
        self.y
    }

    /// The `z` component as a value.
    pub closed spec fn zv(self) -> T {
        self.z
    }

    /// The model of the `x` component.
    pub open spec fn xm(self) -> int {
        self.xv().model()
    }

    /// The model of the `y` component.
    pub open spec fn ym(self) -> int {
        self.yv().model()
    }

    /// The model of the `z` component.
    pub open spec fn zm(self) -> int {
        self.zv().model()
    }

    /// The components in order.
    pub open spec fn to_seq(self) -> Seq<T> {
        seq![self.xv(), self.yv(), self.zv()]
    }

    /// All components have the zero model.
    pub open spec fn is_zero(self) -> bool {
        self.xm() == 0 && self.ym() == 0 && self.zm() == 0
    }

    /// `self` is the componentwise sum of `v` and `w`.
    pub open spec fn is_sum_of(self, v: Self, w: Self) -> bool {
        &&& self.xm() == v.xm() + w.xm()
        &&& self.ym() == v.ym() + w.ym()
        &&& self.zm() == v.zm() + w.zm()
    }

    /// `self` is the componentwise difference of `v` and `w`.
    pub open spec fn is_diff_of(self, v: Self, w: Self) -> bool {
        &&& self.xm() == v.xm() - w.xm()
        &&& self.ym() == v.ym() - w.ym()
        &&& self.zm() == v.zm() - w.zm()
    }

    /// `self` is `v` scaled componentwise by the scalar `d`.
    pub open spec fn is_scaled_of(self, v: Self, d: T) -> bool {
        &&& self.xm() == T::mul_model(v.xm(), d.model())
        &&& self.ym() == T::mul_model(v.ym(), d.model())
        &&& self.zm() == T::mul_model(v.zm(), d.model())
    }

    /// The model of the dot product `x * ox + y * oy + z * oz`.
    pub open spec fn dot_m(self, other: Self) -> int {
        T::mul_model(self.xm(), other.xm()) + T::mul_model(self.ym(), other.ym()) + T::mul_model(
            self.zm(),
            other.zm(),
        )
    }

    /// The model of the `x` component of the cross product,
    /// `y * oz - z * oy`.
    pub open spec fn cross_x_m(self, other: Self) -> int {
        T::mul_model(self.ym(), other.zm()) - T::mul_model(self.zm(), other.ym())
    }

    /// The model of the `y` component of the cross product,
    /// `z * ox - x * oz`.
    pub open spec fn cross_y_m(self, other: Self) -> int {
        T::mul_model(self.zm(), other.xm()) - T::mul_model(self.xm(), other.zm())
    }

    /// The model of the `z` component of the cross product,
    /// `x * oy - y * ox`.
    pub open spec fn cross_z_m(self, other: Self) -> int {
        T::mul_model(self.xm(), other.ym()) - T::mul_model(self.ym(), other.xm())
    }

    /// `self` is the cross product of `v` and `w`.
    pub open spec fn is_cross_of(self, v: Self, w: Self) -> bool {
        &&& self.xm() == v.cross_x_m(w)
        &&& self.ym() == v.cross_y_m(w)
        &&& self.zm() == v.cross_z_m(w)
    }

    /// The model of the squared Euclidean norm `x * x + y * y + z * z`.
    pub open spec fn l2sq_m(self) -> int {
        T::mul_model(self.xm(), self.xm()) + T::mul_model(self.ym(), self.ym()) + T::mul_model(
            self.zm(),
            self.zm(),
        )
    }

    /// The dot product of `self` and `other` is representable.
    pub open spec fn dot_ok(self, other: Self) -> bool {
        &&& T::mul_ok(self.xm(), other.xm())
        &&& T::mul_ok(self.ym(), other.ym())
        &&& T::mul_ok(self.zm(), other.zm())
        &&& T::add_ok(T::mul_model(self.xm(), other.xm()), T::mul_model(self.ym(), other.ym()))
        &&& T::add_ok(
            T::mul_model(self.xm(), other.xm()) + T::mul_model(self.ym(), other.ym()),
            T::mul_model(self.zm(), other.zm()),
        )
    }

    /// The cross product of `self` and `other` is representable.
    pub open spec fn cross_ok(self, other: Self) -> bool {
        &&& T::mul_ok(self.ym(), other.zm())
        &&& T::mul_ok(self.zm(), other.ym())
        &&& T::sub_ok(T::mul_model(self.ym(), other.zm()), T::mul_model(self.zm(), other.ym()))
        &&& T::mul_ok(self.zm(), other.xm())
        &&& T::mul_ok(self.xm(), other.zm())
        &&& T::sub_ok(T::mul_model(self.zm(), other.xm()), T::mul_model(self.xm(), other.zm()))
        &&& T::mul_ok(self.xm(), other.ym())
        &&& T::mul_ok(self.ym(), other.xm())
        &&& T::sub_ok(T::mul_model(self.xm(), other.ym()), T::mul_model(self.ym(), other.xm()))
    }

    /// The model of the squared Euclidean norm of the cross product of
    /// `self` and `other`.
    pub open spec fn cross_mag_sqd_m(self, other: Self) -> int {
        T::mul_model(self.cross_x_m(other), self.cross_x_m(other)) + T::mul_model(
            self.cross_y_m(other),
            self.cross_y_m(other),
        ) + T::mul_model(self.cross_z_m(other), self.cross_z_m(other))
    }

    /// The squared Euclidean norm of the cross product of `self` and
    /// `other` is representable.
    pub open spec fn cross_l2sq_ok(self, other: Self) -> bool {
        &&& T::mul_ok(self.cross_x_m(other), self.cross_x_m(other))
        &&& T::mul_ok(self.cross_y_m(other), self.cross_y_m(other))
        &&& T::mul_ok(self.cross_z_m(other), self.cross_z_m(other))
        &&& T::add_ok(
            T::mul_model(self.cross_x_m(other), self.cross_x_m(other)),
            T::mul_model(self.cross_y_m(other), self.cross_y_m(other)),
        )
        &&& T::add_ok(
            T::mul_model(self.cross_x_m(other), self.cross_x_m(other)) + T::mul_model(
                self.cross_y_m(other),
                self.cross_y_m(other),
            ),
            T::mul_model(self.cross_z_m(other), self.cross_z_m(other)),
        )
    }

    pub fn new(inner: [T; 3]) -> (r: Self)
        ensures
            r.xv() == inner@[0],
            r.yv() == inner@[1],
            r.zv() == inner@[2],
    {
        XYZVec { x: inner[0], y: inner[1], z: inner[2] }
    }

    /// `x` component of XYZVec
    pub fn x(&self) -> (r: T)
        ensures
            r == self.xv(),
    {
        self.x
    }

    /// `y` component of XYZVec
    pub fn y(&self) -> (r: T)
        ensures
            r == self.yv(),
    {
        self.y
    }

    /// `z` component of XYZVec
    pub fn z(&self) -> (r: T)
        ensures
            r == self.zv(),
    {
        self.z
    }

    /// All components multiplied by the scalar `d`.
    pub fn scale_by(&self, d: T) -> (r: Self)
        requires
            T::mul_ok(self.xm(), d.model()),
            T::mul_ok(self.ym(), d.model()),
            T::mul_ok(self.zm(), d.model()),
        ensures
            r.is_scaled_of(*self, d),
    {
        let x = self.x.mul(d);
        let y = self.y.mul(d);
        let z = self.z.mul(d);
        Self::new([x, y, z])
    }

    /// All components divided by the scalar `d`.  A zero divisor is not
    /// representable here and is excluded by `div_ok`.
    pub fn div_by(&self, d: T) -> (r: Self)
        requires
            T::div_ok(self.xm(), d.model()),
            T::div_ok(self.ym(), d.model()),
            T::div_ok(self.zm(), d.model()),
        ensures
            r.xm() == T::div_model(self.xm(), d.model()),
            r.ym() == T::div_model(self.ym(), d.model()),
            r.zm() == T::div_model(self.zm(), d.model()),
    {
        let x = self.x.div(d);
        let y = self.y.div(d);
        let z = self.z.div(d);
        Self::new([x, y, z])
    }

    /// The componentwise sum with the loose scalars `(x, y, z)`.
    pub fn translate_by(&self, x: T, y: T, z: T) -> (r: Self)
        requires
            T::add_ok(self.xm(), x.model()),
            T::add_ok(self.ym(), y.model()),
            T::add_ok(self.zm(), z.model()),
        ensures
            r.xm() == self.xm() + x.model(),
            r.ym() == self.ym() + y.model(),
            r.zm() == self.zm() + z.model(),
    {
        let new_x = self.x.add(x);
        let new_y = self.y.add(y);
        let new_z = self.z.add(z);
        XYZVec { x: new_x, y: new_y, z: new_z }
    }

    /// The plain signed sum of the components, `x + y + z`.  Despite the
    /// name this is not the mathematical L1 norm: components are not taken
    /// by absolute value, so mixed signs cancel.
    pub fn l1_norm(&self) -> (r: T)
        requires
            T::add_ok(self.xm(), self.ym()),
            T::add_ok(self.xm() + self.ym(), self.zm()),
        ensures
            r.model() == self.xm() + self.ym() + self.zm(),
    {
        let xy = self.x.add(self.y);
        xy.add(self.z)
    }

    /// The squared Euclidean norm, `x * x + y * y + z * z`.
    pub fn l2_norm_sqd(&self) -> (r: T)
        requires
            self.dot_ok(*self),
        ensures
            r.model() == self.l2sq_m(),
    {
        let xx = self.x.mul(self.x);
        let yy = self.y.mul(self.y);
        let zz = self.z.mul(self.z);
        let s = xx.add(yy);
        s.add(zz)
    }

    /// The true 3D cross product
    /// `(y * oz - z * oy, z * ox - x * oz, x * oy - y * ox)`.
    pub fn cross_prod(&self, other: Self) -> (r: Self)
        requires
            self.cross_ok(other),
        ensures
            r.is_cross_of(*self, other),
    {
        let x = self.y.mul(other.z).sub(self.z.mul(other.y));
        let y = self.z.mul(other.x).sub(self.x.mul(other.z));
        let z = self.x.mul(other.y).sub(self.y.mul(other.x));
        Self::new([x, y, z])
    }

    /// The dot product `x * ox + y * oy + z * oz`.
    pub fn dot_prod(&self, other: Self) -> (r: T)
        requires
            self.dot_ok(other),
        ensures
            r.model() == self.dot_m(other),
    {
        let a = self.x.mul(other.x);
        let b = self.y.mul(other.y);
        let c = self.z.mul(other.z);
        let s = a.add(b);
        s.add(c)
    }

    /// The squared Euclidean norm of the cross product of `self` and
    /// `other`.
    pub fn cross_prod_magnitude_sqd(&self, other: Self) -> (r: T)
        requires
            self.cross_ok(other),
            self.cross_l2sq_ok(other),
        ensures
            r.model() == self.cross_mag_sqd_m(other),
    {
        let c = self.cross_prod(other);
        c.l2_norm_sqd()
    }

    /// The plain signed sum of the components; an alias of
    /// [`XYZVec::l1_norm`].
    pub fn sum(&self) -> (r: T)
        requires
            T::add_ok(self.xm(), self.ym()),
            T::add_ok(self.xm() + self.ym(), self.zm()),
        ensures
            r.model() == self.xm() + self.ym() + self.zm(),
    {
        let xy = self.x.add(self.y);
        xy.add(self.z)
    }

    /// The components in order, for componentwise transforms.
    pub fn iter(&self) -> (r: Vec<T>)
        ensures
            r@ == self.to_seq(),
    {
        let mut v: Vec<T> = Vec::new();
        v.push(self.x);
        v.push(self.y);
        v.push(self.z);
        proof {
            assert(v@ =~= self.to_seq());
        }
        v
    }

    /// The vector made of the first three elements of `v`; elements beyond
    /// the third are ignored.  Fewer than three elements violate the arity
    /// of the type and are excluded here; [`XYZVec::try_from_iter`] reports
    /// that case as `None` instead.
    pub fn from_iter(v: &Vec<T>) -> (r: Self)
        requires
            v@.len() >= 3,
        ensures
            r.xv() == v@[0],
            r.yv() == v@[1],
            r.zv() == v@[2],
    {
        XYZVec { x: v[0], y: v[1], z: v[2] }
    }

    /// As [`XYZVec::from_iter`], but an arity violation (fewer than three
    /// elements) yields `None`.
    pub fn try_from_iter(v: &Vec<T>) -> (r: Option<Self>)
        ensures
            r matches Some(w) ==> v@.len() >= 3 && w.xv() == v@[0] && w.yv() == v@[1] && w.zv()
                == v@[2],
            r is None ==> v@.len() < 3,
    {
        if v.len() < 3 {
            None
        } else {
            Some(Self::from_iter(v))
        }
    }

    /// The componentwise sum of `self` and `other`.
    pub fn add(self, other: Self) -> (r: Self)
        requires
            T::add_ok(self.xm(), other.xm()),
            T::add_ok(self.ym(), other.ym()),
            T::add_ok(self.zm(), other.zm()),
        ensures
            r.is_sum_of(self, other),
    {
        let x = self.x.add(other.x);
        let y = self.y.add(other.y);
        let z = self.z.add(other.z);
        Self::new([x, y, z])
    }

    /// The componentwise difference of `self` and `other`.
    pub fn sub(self, other: Self) -> (r: Self)
        requires
            T::sub_ok(self.xm(), other.xm()),
            T::sub_ok(self.ym(), other.ym()),
            T::sub_ok(self.zm(), other.zm()),
        ensures
            r.is_diff_of(self, other),
    {
        let x = self.x.sub(other.x);
        let y = self.y.sub(other.y);
        let z = self.z.sub(other.z);
        Self::new([x, y, z])
    }

    /// The componentwise negation, for scalars that support negation.
    pub fn neg(self) -> (r: Self)
        requires
            T::neg_ok(self.xm()),
            T::neg_ok(self.ym()),
            T::neg_ok(self.zm()),
        ensures
            r.xm() == -self.xm(),
            r.ym() == -self.ym(),
            r.zm() == -self.zm(),
    {
        Self::new([self.x.neg(), self.y.neg(), self.z.neg()])
    }

    /// In-place componentwise sum.
    pub fn add_assign(&mut self, other: Self)
        requires
            T::add_ok(old(self).xm(), other.xm()),
            T::add_ok(old(self).ym(), other.ym()),
            T::add_ok(old(self).zm(), other.zm()),
        ensures
            final(self).is_sum_of(*old(self), other),
    {
        self.x = self.x.add(other.x);
        self.y = self.y.add(other.y);
        self.z = self.z.add(other.z);
    }

    /// In-place componentwise difference.
    pub fn sub_assign(&mut self, other: Self)
        requires
            T::sub_ok(old(self).xm(), other.xm()),
            T::sub_ok(old(self).ym(), other.ym()),
            T::sub_ok(old(self).zm(), other.zm()),
        ensures
            final(self).is_diff_of(*old(self), other),
    {
        self.x = self.x.sub(other.x);
        self.y = self.y.sub(other.y);
        self.z = self.z.sub(other.z);
    }

    /// The vector with all components at the additive identity.
    pub fn zeroes() -> (r: Self)
        ensures
            r.is_zero(),
    {
        XYZVec { x: T::zero(), y: T::zero(), z: T::zero() }
    }

    /// Vector addition is commutative: summing in either order gives the
    /// same vector.
    pub proof fn lemma_add_comm(v: Self, w: Self, r1: Self, r2: Self)
        requires
            r1.is_sum_of(v, w),
            r2.is_sum_of(w, v),
        ensures
            r1 == r2,
    {
        T::lemma_model_injective(r1.xv(), r2.xv());
        T::lemma_model_injective(r1.yv(), r2.yv());
        T::lemma_model_injective(r1.zv(), r2.zv());
    }

    /// Vector addition is associative: `(v + w) + u` equals `v + (w + u)`.
    pub proof fn lemma_add_assoc(
        v: Self,
        w: Self,
        u: Self,
        vw: Self,
        vw_u: Self,
        wu: Self,
        v_wu: Self,
    )
        requires
            vw.is_sum_of(v, w),
            vw_u.is_sum_of(vw, u),
            wu.is_sum_of(w, u),
            v_wu.is_sum_of(v, wu),
        ensures
            vw_u == v_wu,
    {
        T::lemma_model_injective(vw_u.xv(), v_wu.xv());
        T::lemma_model_injective(vw_u.yv(), v_wu.yv());
        T::lemma_model_injective(vw_u.zv(), v_wu.zv());
    }

    /// The zero vector is neutral for vector addition.
    pub proof fn lemma_add_zero(v: Self, z: Self, r: Self)
        requires
            z.is_zero(),
            r.is_sum_of(v, z),
        ensures
            r == v,
    {
        T::lemma_model_injective(r.xv(), v.xv());
        T::lemma_model_injective(r.yv(), v.yv());
        T::lemma_model_injective(r.zv(), v.zv());
    }

    /// Scaling by the multiplicative identity changes nothing.
    pub proof fn lemma_scale_one(v: Self, d: T, r: Self)
        requires
            d.model() == T::one_v(),
            r.is_scaled_of(v, d),
        ensures
            r == v,
    {
        T::lemma_mul_one(v.xm());
        T::lemma_mul_one(v.ym());
        T::lemma_mul_one(v.zm());
        T::lemma_model_injective(r.xv(), v.xv());
        T::lemma_model_injective(r.yv(), v.yv());
        T::lemma_model_injective(r.zv(), v.zv());
    }

    /// Scaling by the additive identity yields the zero vector.
    pub proof fn lemma_scale_zero(v: Self, d: T, r: Self)
        requires
            d.model() == 0,
            r.is_scaled_of(v, d),
        ensures
            r.is_zero(),
    {
        T::lemma_mul_zero(v.xm());
        T::lemma_mul_zero(v.ym());
        T::lemma_mul_zero(v.zm());
    }

    /// The dot product is symmetric.
    pub proof fn lemma_dot_comm(v: Self, w: Self)
        ensures
            v.dot_m(w) == w.dot_m(v),
    {
        T::lemma_mul_comm(v.xm(), w.xm());
        T::lemma_mul_comm(v.ym(), w.ym());
        T::lemma_mul_comm(v.zm(), w.zm());
    }

    /// The cross product is antisymmetric, componentwise on models.
    pub proof fn lemma_cross_antisym(v: Self, w: Self)
        ensures
            v.cross_x_m(w) == -w.cross_x_m(v),
            v.cross_y_m(w) == -w.cross_y_m(v),
            v.cross_z_m(w) == -w.cross_z_m(v),
    {
        T::lemma_mul_comm(v.ym(), w.zm());
        T::lemma_mul_comm(v.zm(), w.ym());
        T::lemma_mul_comm(v.zm(), w.xm());
        T::lemma_mul_comm(v.xm(), w.zm());
        T::lemma_mul_comm(v.xm(), w.ym());
        T::lemma_mul_comm(v.ym(), w.xm());
    }

    /// The cross product is antisymmetric: the cross product one way is
    /// the componentwise negation of the cross product the other way.
    pub proof fn lemma_cross_antisym_vec(v: Self, w: Self, r1: Self, r2: Self, n2: Self)
        requires
            r1.is_cross_of(v, w),
            r2.is_cross_of(w, v),
            n2.xm() == -r2.xm(),
            n2.ym() == -r2.ym(),
            n2.zm() == -r2.zm(),
        ensures
            r1 == n2,
    {
        Self::lemma_cross_antisym(v, w);
        T::lemma_model_injective(r1.xv(), n2.xv());
        T::lemma_model_injective(r1.yv(), n2.yv());
        T::lemma_model_injective(r1.zv(), n2.zv());
    }

    /// The cross product of a vector with itself is the zero vector.
    pub proof fn lemma_cross_self(v: Self, r: Self)
        requires
            r.is_cross_of(v, v),
        ensures
            r.is_zero(),
    {
        T::lemma_mul_comm(v.xm(), v.ym());
        T::lemma_mul_comm(v.ym(), v.zm());
        T::lemma_mul_comm(v.zm(), v.xm());
    }

    /// The squared Euclidean norm is the dot product of a vector with
    /// itself.
    pub proof fn lemma_l2sq_is_dot_self(v: Self)
        ensures
            v.l2sq_m() == v.dot_m(v),
    {
    }

    /// Collecting a vector's own iterated components back into a vector of
    /// the same type yields the original vector.
    pub proof fn lemma_iter_round_trip(v: Self, r: Self)
        requires
            r.xv() == v.to_seq()[0],
            r.yv() == v.to_seq()[1],
            r.zv() == v.to_seq()[2],
        ensures
            r == v,
    {
    }
}

/// In exact arithmetic a vector is orthogonal to its cross product with
/// any other vector: the dot product of `(x, y, z)` with the cross product
/// of `(x, y, z)` and `(ox, oy, oz)` vanishes.
pub proof fn lemma_cross_orthogonal_ideal(x: int, y: int, z: int, ox: int, oy: int, oz: int)
    ensures
        x * (y * oz - z * oy) + y * (z * ox - x * oz) + z * (x * oy - y * ox) == 0,
{
    assert(x * (y * oz - z * oy) + y * (z * ox - x * oz) + z * (x * oy - y * ox) == 0)
        by (nonlinear_arith);
}

impl XYZVec<Fixed64> {
    /// A vector is orthogonal to its cross product with any other vector,
    /// whenever both vectors are whole-valued (no fractional bits set), so
    /// that none of the products rounds.  With fractional components the
    /// products round and the dot product is only close to zero, not zero.
    pub proof fn lemma_cross_orthogonal_integral(v: Self, w: Self, c: Self)
        requires
            c.is_cross_of(v, w),
            v.xm() % 65536 == 0,
            v.ym() % 65536 == 0,
            v.zm() % 65536 == 0,
            w.xm() % 65536 == 0,
            w.ym() % 65536 == 0,
            w.zm() % 65536 == 0,
        ensures
            v.dot_m(c) == 0,
    {
        let p = v.xm() / 65536;
        let q = v.ym() / 65536;
        let g = v.zm() / 65536;
        let s = w.xm() / 65536;
        let t = w.ym() / 65536;
        let u = w.zm() / 65536;
        lemma_fundamental_div_mod(v.xm(), 65536);
        lemma_fundamental_div_mod(v.ym(), 65536);
        lemma_fundamental_div_mod(v.zm(), 65536);
        lemma_fundamental_div_mod(w.xm(), 65536);
        lemma_fundamental_div_mod(w.ym(), 65536);
        lemma_fundamental_div_mod(w.zm(), 65536);
        lemma_fx_mul_exact(v.ym(), w.zm());
        lemma_fx_mul_exact(v.zm(), w.ym());
        lemma_fx_mul_exact(v.zm(), w.xm());
        lemma_fx_mul_exact(v.xm(), w.zm());
        lemma_fx_mul_exact(v.xm(), w.ym());
        lemma_fx_mul_exact(v.ym(), w.xm());
        lemma_fx_mul_exact(v.xm(), c.xm());
        lemma_fx_mul_exact(v.ym(), c.ym());
        lemma_fx_mul_exact(v.zm(), c.zm());
        assert(v.dot_m(c) == p * (q * w.zm() - g * w.ym()) + q * (g * w.xm() - p * w.zm()) + g * (
        p * w.ym() - q * w.xm()));
        assert(p * (q * w.zm() - g * w.ym()) + q * (g * w.xm() - p * w.zm()) + g * (p * w.ym() - q
            * w.xm()) == 0) by (nonlinear_arith);
    }

    /// The squared norm of `self` is representable and small enough for
    /// the CORDIC square root.
    pub open spec fn l2_norm_ok(self) -> bool {
        &&& i64::MIN <= fx_mul_m(self.xm(), self.xm()) <= i64::MAX
        &&& i64::MIN <= fx_mul_m(self.ym(), self.ym()) <= i64::MAX
        &&& i64::MIN <= fx_mul_m(self.zm(), self.zm()) <= i64::MAX
        &&& self.l2sq_m() < 0x4000_0000_0000_0000
    }

    /// The Euclidean norm, computed by the CORDIC square root; `None`
    /// exactly when the squared norm is not representable or out of the
    /// square root's range.
    pub fn l2_norm(&self) -> (r: Option<Fixed64>)
        ensures
            r matches Some(n) ==> self.l2_norm_ok() && n.model() == cordic_sqrt(self.l2sq_m()),
            r is None ==> !self.l2_norm_ok(),
    {
        let xb = self.x.to_bits();
        let yb = self.y.to_bits();
        let zb = self.z.to_bits();
        proof {
            assert(xb * xb >= 0) by (nonlinear_arith);
            assert(yb * yb >= 0) by (nonlinear_arith);
            assert(zb * zb >= 0) by (nonlinear_arith);
            vstd::arithmetic::div_mod::lemma_div_pos_is_pos(xb * xb, 65536);
            vstd::arithmetic::div_mod::lemma_div_pos_is_pos(yb * yb, 65536);
            vstd::arithmetic::div_mod::lemma_div_pos_is_pos(zb * zb, 65536);
        }
        let xx = match fx_checked_mul_bits(xb, xb) {
            Some(v) => v,
            None => {
                return None;
            },
        };
        let yy = match fx_checked_mul_bits(yb, yb) {
            Some(v) => v,
            None => {
                return None;
            },
        };
        let zz = match fx_checked_mul_bits(zb, zb) {
            Some(v) => v,
            None => {
                return None;
            },
        };
        let s = match fx_checked_add_bits(xx, yy) {
            Some(v) => v,
            None => {
                return None;
            },
        };
        let sq = match fx_checked_add_bits(s, zz) {
            Some(v) => v,
            None => {
                return None;
            },
        };
        if sq >= 0x4000_0000_0000_0000 {
            return None;
        }
        Some(Fixed64::from_bits(fx_sqrt_bits(sq)))
    }

    /// Dividing by a nonzero scalar and scaling back by it approximates
    /// the original vector componentwise, to within the divisor's
    /// magnitude plus one fractional unit.
    pub proof fn lemma_div_scale_round_trip(v: Self, d: Fixed64, q: Self, r: Self)
        requires
            d.model() != 0,
            q.xm() == fx_div_m(v.xm(), d.model()),
            q.ym() == fx_div_m(v.ym(), d.model()),
            q.zm() == fx_div_m(v.zm(), d.model()),
            r.is_scaled_of(q, d),
        ensures
            (abs(v.xm() - r.xm()) as int) * 65536 < abs(d.model()) + 65536,
            (abs(v.ym() - r.ym()) as int) * 65536 < abs(d.model()) + 65536,
            (abs(v.zm() - r.zm()) as int) * 65536 < abs(d.model()) + 65536,
    {
        lemma_div_then_mul_close(v.xm(), d.model());
        lemma_div_then_mul_close(v.ym(), d.model());
        lemma_div_then_mul_close(v.zm(), d.model());
    }
}

} // verus!
