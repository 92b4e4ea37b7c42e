//! Small vector-math library: 2D and 3D vectors over an exact scalar type.
//!
//! The scalar capability is the [`VecInner`] trait: a scalar carries a
//! mathematical model (an integer, for fixed-point formats the raw bit
//! representation) and exact contracts for its arithmetic in terms of that
//! model.  [`XYVec`] and [`XYZVec`] are fixed-arity component containers over
//! any such scalar; all of their geometric operations (dot and cross
//! products, norms, projections) are specified componentwise over the scalar
//! models.  [`Fixed64`] is the provided scalar: a binary fixed-point number
//! with 16 fractional bits whose arithmetic is carried out by the `fixed`
//! crate and whose trigonometry and square root come from the CORDIC
//! routines of the `cordic` crate.
use vstd::prelude::*;

pub mod fx;
pub mod xy;
pub mod xyz;

pub use fx::Fixed64;
pub use xy::XYVec;
pub use xyz::XYZVec;

verus! {

/// Capability constraint for vector components.
///
/// A scalar is a copyable value with an integer model (`model`); addition,
/// subtraction and negation are exact on models, while multiplication and
/// division may round, which the per-type `mul_model` / `div_model` spec
/// functions capture.  The `..._ok` predicates say on which model values an
/// operation is defined (representable and free of overflow); outside of
/// them the executable operations must not be called.
pub trait VecInner: Sized + Copy {
    /// The mathematical model of this scalar value.
    spec fn model(self) -> int;

    /// What multiplying scalars with models `x` and `y` yields.
    spec fn mul_model(x: int, y: int) -> int;

    /// What dividing a scalar with model `x` by one with model `y` yields.
    spec fn div_model(x: int, y: int) -> int;

    /// The model of the multiplicative identity.
    spec fn one_v() -> int;

    /// Whether the sum of models `x` and `y` is representable.
    spec fn add_ok(x: int, y: int) -> bool;

    /// Whether the difference of models `x` and `y` is representable.
    spec fn sub_ok(x: int, y: int) -> bool;

    /// Whether the negation of model `x` is representable.
    spec fn neg_ok(x: int) -> bool;

    /// Whether the product of models `x` and `y` is representable.
    spec fn mul_ok(x: int, y: int) -> bool;

    /// Whether the quotient of models `x` and `y` is defined and representable.
    spec fn div_ok(x: int, y: int) -> bool;

    fn add(self, other: Self) -> (r: Self)
        requires
            Self::add_ok(self.model(), other.model()),
        ensures
            r.model() == self.model() + other.model(),
    ;

    fn sub(self, other: Self) -> (r: Self)
        requires
            Self::sub_ok(self.model(), other.model()),
        ensures
            r.model() == self.model() - other.model(),
    ;

    fn neg(self) -> (r: Self)
        requires
            Self::neg_ok(self.model()),
        ensures
            r.model() == -self.model(),
    ;

    fn mul(self, other: Self) -> (r: Self)
        requires
            Self::mul_ok(self.model(), other.model()),
        ensures
            r.model() == Self::mul_model(self.model(), other.model()),
    ;

    fn div(self, other: Self) -> (r: Self)
        requires
            Self::div_ok(self.model(), other.model()),
        ensures
            r.model() == Self::div_model(self.model(), other.model()),
    ;

    /// The additive identity.
    fn zero() -> (r: Self)
        ensures
            r.model() == 0,
    ;

    /// The multiplicative identity.
    fn one() -> (r: Self)
        ensures
            r.model() == Self::one_v(),
    ;

    /// The model determines the scalar: equal models mean equal values.
    proof fn lemma_model_injective(a: Self, b: Self)
        requires
            a.model() == b.model(),
        ensures
            a == b,
    ;

    /// Multiplication of models is commutative.
    proof fn lemma_mul_comm(x: int, y: int)
        ensures
            Self::mul_model(x, y) == Self::mul_model(y, x),
    ;

    /// The multiplicative identity is neutral.
    proof fn lemma_mul_one(x: int)
        ensures
            Self::mul_model(x, Self::one_v()) == x,
    ;

    /// Multiplying by the additive identity yields it.
    proof fn lemma_mul_zero(x: int)
        ensures
            Self::mul_model(x, 0) == 0,
            Self::mul_model(0, x) == 0,
    ;
}

/// Marker for scalar types whose square root and trigonometry are computed
/// by the CORDIC backend rather than by native transcendental functions.
pub trait CordicPhantomTrait {
}

} // verus!
