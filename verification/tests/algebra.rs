use llg::vec3::Vec3;

#[test]
fn cross_product_works() {
    let i = Vec3::new(1, 0, 0);
    let j = Vec3::new(0, 1, 0);
    let k = Vec3::new(0, 0, 1);
    assert_eq!(i.cross(&j), k);
    assert_eq!(j.cross(&k), i);
}

#[test]
fn cross_of_k_and_i_gives_j() {
    let i = Vec3::new(1, 0, 0);
    let j = Vec3::new(0, 1, 0);
    let k = Vec3::new(0, 0, 1);
    assert_eq!(k.cross(&i), j);
}

#[test]
fn cross_with_itself_vanishes() {
    let v = Vec3::new(3, -5, 7);
    assert_eq!(v.cross(&v), Vec3::new(0, 0, 0));
}

#[test]
fn cross_is_anticommutative() {
    let a = Vec3::new(2, -9, 4);
    let b = Vec3::new(-1, 6, 8);
    assert_eq!(a.cross(&b), b.cross(&a).negated());
}

#[test]
fn cross_product_is_exact() {
    let a = Vec3::new(3, -5, 7);
    let b = Vec3::new(2, 11, -4);
    assert_eq!(a.cross(&b), Vec3::new(-57, 26, 43));
}

#[test]
fn cross_survives_wide_intermediate_products() {
    // The products inside each coordinate exceed the coordinate type; only
    // their difference fits.
    let big: i64 = 1 << 35;
    let a = Vec3::new(0, big, big);
    let b = Vec3::new(0, big - 1, big);
    assert_eq!(a.cross(&b), Vec3::new(big, 0, 0));
}

#[test]
fn sums_differences_and_scalings_are_exact() {
    let a = Vec3::new(1, -2, 3);
    let b = Vec3::new(10, 20, -30);
    assert_eq!(a.plus(&b), Vec3::new(11, 18, -27));
    assert_eq!(a.minus(&b), Vec3::new(-9, -22, 33));
    assert_eq!(a.negated(), Vec3::new(-1, 2, -3));
    assert_eq!(a.scaled(-4), Vec3::new(-4, 8, -12));
}

#[test]
fn dot_product_is_exact() {
    let a = Vec3::new(1, 2, 3);
    let b = Vec3::new(4, 5, 6);
    assert_eq!(a.dot(&b), 32);
    assert_eq!(a.dot(&a), 14);
}
