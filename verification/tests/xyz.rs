use xyzvec::Fixed64;
use xyzvec::XYZVec;

// Bit representations: a value v is stored as v * 65536.
const ONE: i64 = 65536;

fn fx(bits: i64) -> Fixed64 {
    Fixed64::from_bits(bits)
}

fn vec3(x: i64, y: i64, z: i64) -> XYZVec<Fixed64> {
    XYZVec::new([fx(x), fx(y), fx(z)])
}

#[test]
fn xyz_scale_fixed() {
    let v = vec3(ONE, 2 * ONE, -ONE / 2);
    let scaled_v = v.scale_by(fx(5 * ONE));
    assert_eq!(scaled_v.x().to_bits(), 5 * ONE);
    assert_eq!(scaled_v.y().to_bits(), 10 * ONE);
    assert_eq!(scaled_v.z().to_bits(), -5 * ONE / 2);
}

#[test]
fn xyz_div_fixed() {
    let v = vec3(ONE, 2 * ONE, -ONE / 2);
    let scaled_v = v.div_by(fx(ONE / 4));
    assert_eq!(scaled_v.x().to_bits(), 4 * ONE);
    assert_eq!(scaled_v.y().to_bits(), 8 * ONE);
    assert_eq!(scaled_v.z().to_bits(), -2 * ONE);
}

#[test]
fn xyz_translate_fixed() {
    let v = vec3(ONE, 2 * ONE, -ONE / 2);
    let scaled_v = v.translate_by(fx(ONE), fx(ONE), fx(ONE));
    assert_eq!(scaled_v.x().to_bits(), 2 * ONE);
    assert_eq!(scaled_v.y().to_bits(), 3 * ONE);
    assert_eq!(scaled_v.z().to_bits(), ONE / 2);
}

#[test]
fn xyz_norms_fixed() {
    let v = vec3(ONE, 2 * ONE, -ONE / 2);
    assert_eq!(v.l1_norm().to_bits(), 5 * ONE / 2);
    assert_eq!(v.l2_norm_sqd().to_bits(), 21 * ONE / 4);
}

#[test]
fn xyz_cross_prod_fixed() {
    // The cross product of (1, 2, -0.5) and (-2, 0.5, 0) is
    // (y*oz - z*oy, z*ox - x*oz, x*oy - y*ox) = (0.25, 1, 4.5).
    let v = vec3(ONE, 2 * ONE, -ONE / 2);
    let w = vec3(-2 * ONE, ONE / 2, 0);
    let cross_prod = v.cross_prod(w);
    assert_eq!(cross_prod.x().to_bits(), ONE / 4);
    assert_eq!(cross_prod.y().to_bits(), ONE);
    assert_eq!(cross_prod.z().to_bits(), 9 * ONE / 2);
    let mag_sqd = v.cross_prod_magnitude_sqd(w);
    // 0.25^2 + 1^2 + 4.5^2 = 21.3125
    assert_eq!(mag_sqd.to_bits(), 1396736);
}

#[test]
fn xyz_dot_prod_fixed() {
    let v = vec3(ONE, 2 * ONE, -ONE / 2);
    let w = vec3(-2 * ONE, ONE / 2, 0);
    assert_eq!(v.dot_prod(w).to_bits(), -ONE);
}

#[test]
fn norms_sqrt_xyz() {
    // l2_norm of (1, 2, -0.5) is sqrt(5.25) ~ 2.291288, i.e. ~150178 in
    // bits; the CORDIC square root is approximate.
    let v = vec3(ONE, 2 * ONE, -ONE / 2);
    let n = v.l2_norm().unwrap().to_bits();
    assert!((n - 150178).abs() <= 64, "l2_norm bits were {}", n);
}

#[test]
fn xyz_zero_vector_operations() {
    let zero = XYZVec::<Fixed64>::zeroes();
    let unit_x = vec3(ONE, 0, 0);

    assert_eq!(zero.l1_norm().to_bits(), 0);
    assert_eq!(zero.l2_norm_sqd().to_bits(), 0);
    assert_eq!(zero.l2_norm().unwrap().to_bits(), 0);
    assert_eq!(zero.sum().to_bits(), 0);
    assert_eq!(zero.dot_prod(unit_x).to_bits(), 0);
    assert_eq!(zero.scale_by(fx(5 * ONE)), zero);
}

#[test]
fn xyz_iterator_and_from_iterator() {
    let v = vec3(ONE, 2 * ONE, -ONE / 2);

    let comps = v.iter();
    assert_eq!(comps.len(), 3);
    assert_eq!(comps[0].to_bits(), ONE);
    assert_eq!(comps[1].to_bits(), 2 * ONE);
    assert_eq!(comps[2].to_bits(), -ONE / 2);

    let from_vec = XYZVec::from_iter(&vec![fx(3 * ONE), fx(4 * ONE), fx(5 * ONE)]);
    assert_eq!(from_vec.x().to_bits(), 3 * ONE);
    assert_eq!(from_vec.y().to_bits(), 4 * ONE);
    assert_eq!(from_vec.z().to_bits(), 5 * ONE);
}

#[test]
fn xyz_arity_violation_yields_none() {
    assert_eq!(XYZVec::<Fixed64>::try_from_iter(&vec![fx(ONE), fx(ONE)]), None);
    assert_eq!(XYZVec::<Fixed64>::try_from_iter(&vec![]), None);
    let long = vec![fx(ONE), fx(2 * ONE), fx(3 * ONE), fx(4 * ONE)];
    let v = XYZVec::<Fixed64>::try_from_iter(&long).unwrap();
    // Elements beyond the third are ignored.
    assert_eq!(v, vec3(ONE, 2 * ONE, 3 * ONE));
}

#[test]
fn xyz_add_sub_and_in_place_forms() {
    let v = vec3(ONE, 2 * ONE, 3 * ONE);
    let w = vec3(3 * ONE, -ONE, ONE / 2);
    assert_eq!(v.add(w), vec3(4 * ONE, ONE, 7 * ONE / 2));
    assert_eq!(v.sub(w), vec3(-2 * ONE, 3 * ONE, 5 * ONE / 2));
    let mut m = v;
    m.add_assign(w);
    assert_eq!(m, vec3(4 * ONE, ONE, 7 * ONE / 2));
    m.sub_assign(w);
    assert_eq!(m, v);
    let n = v.neg();
    assert_eq!(n, vec3(-ONE, -2 * ONE, -3 * ONE));
}
