use xyzvec::Fixed64;
use xyzvec::VecInner;
use xyzvec::XYVec;

// Bit representations: a value v is stored as v * 65536.
const ONE: i64 = 65536;

fn fx(bits: i64) -> Fixed64 {
    Fixed64::from_bits(bits)
}

fn vec2(x: i64, y: i64) -> XYVec<Fixed64> {
    XYVec::new([fx(x), fx(y)])
}

#[test]
fn xy_scale_fixed() {
    let v = vec2(ONE, -ONE / 2);
    let scaled_v = v.scale_by(fx(5 * ONE));
    assert_eq!(scaled_v.x().to_bits(), 5 * ONE);
    assert_eq!(scaled_v.y().to_bits(), -5 * ONE / 2);
}

#[test]
fn xy_div_fixed() {
    let v = vec2(ONE, -ONE / 2);
    let scaled_v = v.div_by(fx(ONE / 4));
    assert_eq!(scaled_v.x().to_bits(), 4 * ONE);
    assert_eq!(scaled_v.y().to_bits(), -2 * ONE);
}

#[test]
fn xy_translate_fixed() {
    let v = vec2(ONE, -ONE / 2);
    let scaled_v = v.translate_by(fx(ONE), fx(ONE));
    assert_eq!(scaled_v.x().to_bits(), 2 * ONE);
    assert_eq!(scaled_v.y().to_bits(), ONE / 2);
}

#[test]
fn xy_norms_fixed() {
    let v = vec2(ONE, -ONE / 2);
    assert_eq!(v.l1_norm().to_bits(), ONE / 2);
    assert_eq!(v.l2_norm_sqd().to_bits(), 5 * ONE / 4);
}

#[test]
fn xy_cross_prod_fixed() {
    let v = vec2(ONE, -ONE / 2);
    let w = vec2(-2 * ONE, 0);
    assert_eq!(v.cross_prod(w).to_bits(), -ONE);
    assert_eq!(v.cross_prod_sqd(w).to_bits(), ONE);
}

#[test]
fn xy_dot_prod_fixed() {
    let v = vec2(ONE, -ONE / 2);
    let w = vec2(-2 * ONE, 0);
    assert_eq!(v.dot_prod(w).to_bits(), -2 * ONE);
}

#[test]
fn neg_components() {
    let v = vec2(ONE, -ONE / 2);
    let n = v.neg();
    assert_eq!(n.x().to_bits(), -ONE);
    assert_eq!(n.y().to_bits(), ONE / 2);
}

#[test]
fn norms_sqrt_xy() {
    // l2_norm of (1, -0.5) is sqrt(1.25) ~ 1.118034, i.e. ~73272 in bits;
    // the CORDIC square root is approximate, so allow a small tolerance.
    let v = vec2(ONE, -ONE / 2);
    let n = v.l2_norm().unwrap().to_bits();
    assert!((n - 73272).abs() <= 64, "l2_norm bits were {}", n);
}

#[test]
fn zero_vector_operations() {
    let zero = XYVec::<Fixed64>::zeroes();
    let unit_x = vec2(ONE, 0);

    assert_eq!(zero.l1_norm().to_bits(), 0);
    assert_eq!(zero.l2_norm_sqd().to_bits(), 0);
    assert_eq!(zero.l2_norm().unwrap().to_bits(), 0);
    assert_eq!(zero.sum().to_bits(), 0);

    assert_eq!(zero.dot_prod(unit_x).to_bits(), 0);
    assert_eq!(zero.cross_prod(unit_x).to_bits(), 0);
    assert_eq!(zero.scale_by(fx(5 * ONE)), zero);
    assert_eq!(zero.translate_by(fx(ONE), fx(2 * ONE)), vec2(ONE, 2 * ONE));
}

#[test]
fn iterator_and_from_iterator() {
    let v = vec2(ONE, 2 * ONE);

    let comps = v.iter();
    assert_eq!(comps.len(), 2);
    assert_eq!(comps[0].to_bits(), ONE);
    assert_eq!(comps[1].to_bits(), 2 * ONE);

    let two = fx(2 * ONE);
    let doubled = XYVec::new([comps[0].mul(two), comps[1].mul(two)]);
    assert_eq!(doubled.x().to_bits(), 2 * ONE);
    assert_eq!(doubled.y().to_bits(), 4 * ONE);

    let from_vec = XYVec::from_iter(&vec![fx(3 * ONE), fx(4 * ONE)]);
    assert_eq!(from_vec.x().to_bits(), 3 * ONE);
    assert_eq!(from_vec.y().to_bits(), 4 * ONE);
}

#[test]
fn projection_operations() {
    let v = vec2(ONE, 2 * ONE);
    let w = vec2(2 * ONE, 4 * ONE);

    let scalar_proj = v.scalar_projected_on(w);
    assert_eq!(scalar_proj.to_bits(), ONE / 2);

    let vector_proj = v.projected_on(w);
    assert_eq!(vector_proj.x().to_bits(), ONE);
    assert_eq!(vector_proj.y().to_bits(), 2 * ONE);

    let zero = XYVec::<Fixed64>::zeroes();
    let zero_proj = zero.projected_on(w);
    assert_eq!(zero_proj.x().to_bits(), 0);
    assert_eq!(zero_proj.y().to_bits(), 0);
}

#[test]
fn rotation_operations() {
    // Rotation returns the rotated point itself, not its displacement
    // from the original point.  The CORDIC backend is approximate: allow
    // a small tolerance around the exact rotated coordinates.
    let v = vec2(ONE, 0);
    let quarter_turn = fx(102944);  // pi/2 in bits
    let half_turn = fx(205887);  // pi in bits
    let full_turn = fx(411775);  // 2 * pi in bits
    let tol = 128;

    let rotated_90 = v.rotated_by(quarter_turn).unwrap();
    assert!(rotated_90.x().to_bits().abs() <= tol);
    assert!((rotated_90.y().to_bits() - ONE).abs() <= tol);

    let rotated_180 = v.rotated_by(half_turn).unwrap();
    assert!((rotated_180.x().to_bits() + ONE).abs() <= tol);
    assert!(rotated_180.y().to_bits().abs() <= tol);

    let rotated_360 = v.rotated_by(full_turn).unwrap();
    assert!((rotated_360.x().to_bits() - ONE).abs() <= tol);
    assert!(rotated_360.y().to_bits().abs() <= tol);

    let zero = XYVec::<Fixed64>::zeroes();
    let rotated_zero = zero.rotated_by(quarter_turn).unwrap();
    assert_eq!(rotated_zero.x().to_bits(), 0);
    assert_eq!(rotated_zero.y().to_bits(), 0);
}

#[test]
fn edge_cases_and_special_values() {
    let mixed = vec2(ONE, -ONE);
    assert_eq!(mixed.l1_norm().to_bits(), 0);
    assert_eq!(mixed.l2_norm_sqd().to_bits(), 2 * ONE);

    let equal = vec2(3 * ONE, 3 * ONE);
    assert_eq!(equal.l1_norm().to_bits(), 6 * ONE);
    assert_eq!(equal.l2_norm_sqd().to_bits(), 18 * ONE);

    let parallel1 = vec2(ONE, 2 * ONE);
    let parallel2 = vec2(2 * ONE, 4 * ONE);
    assert_eq!(parallel1.cross_prod(parallel2).to_bits(), 0);
}

#[test]
fn fixed_2d_scenario() {
    let v = vec2(ONE, -ONE / 2);
    let w = vec2(-2 * ONE, 0);
    assert_eq!(v.dot_prod(w).to_bits(), -2 * ONE);
    assert_eq!(v.cross_prod(w).to_bits(), -ONE);
    assert_eq!(v.l2_norm_sqd().to_bits(), 5 * ONE / 4);
}

#[test]
fn arity_violation_yields_none() {
    let short = vec![fx(ONE)];
    assert_eq!(XYVec::<Fixed64>::try_from_iter(&short), None);
    assert_eq!(XYVec::<Fixed64>::try_from_iter(&vec![]), None);
    let long = vec![fx(ONE), fx(2 * ONE), fx(3 * ONE)];
    let v = XYVec::<Fixed64>::try_from_iter(&long).unwrap();
    // Elements beyond the second are ignored.
    assert_eq!(v, vec2(ONE, 2 * ONE));
}

#[test]
fn l2_norm_overflow_is_none() {
    // Components of 2^24 square to 2^48, beyond the representable range.
    let big = vec2(1 << 40, 1 << 40);
    assert_eq!(big.l2_norm(), None);
}

#[test]
fn rotation_angle_out_of_range_is_none() {
    let v = vec2(ONE, 0);
    assert_eq!(v.rotated_by(fx(3_000_000_000)), None);
    assert_eq!(v.rotated_by(fx(-3_000_000_000)), None);
}

#[test]
fn add_sub_and_in_place_forms() {
    let v = vec2(ONE, 2 * ONE);
    let w = vec2(3 * ONE, -ONE);
    assert_eq!(v.add(w), vec2(4 * ONE, ONE));
    assert_eq!(v.sub(w), vec2(-2 * ONE, 3 * ONE));
    let mut m = v;
    m.add_assign(w);
    assert_eq!(m, vec2(4 * ONE, ONE));
    m.sub_assign(w);
    assert_eq!(m, v);
}
