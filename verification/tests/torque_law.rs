use llg::torque::TorqueLaw;
use llg::vec3::Vec3;

#[test]
fn can_create_torque_laws() {
    let law = TorqueLaw::new(1, 10);
    assert_eq!(law.damping_num, 1);
    assert_eq!(law.damping_den, 10);
}

#[test]
fn critical_damping_is_unit_ratio() {
    let law = TorqueLaw::critical();
    assert_eq!(law.damping_num, 1);
    assert_eq!(law.damping_den, 1);
}

#[test]
fn prefactor_is_an_exact_fraction() {
    // gamma / (1 + alpha^2) with gamma = 1 and alpha = num / den is
    // den^2 / (num^2 + den^2).
    assert_eq!(TorqueLaw::critical().prefactor(), (1, 2));
    assert_eq!(TorqueLaw::new(0, 1).prefactor(), (1, 1));
    assert_eq!(TorqueLaw::new(1, 2).prefactor(), (4, 5));
    assert_eq!(TorqueLaw::new(-3, 4).prefactor(), (16, 25));
}

#[test]
fn torque_moves_spin_toward_field() {
    // Under critical damping, a spin along x in a field along z is pushed in
    // the +y (precession) and +z (relaxation) directions at once.
    let law = TorqueLaw::critical();
    let spin = Vec3::new(1, 0, 0);
    let field = Vec3::new(0, 0, 1);
    let t = law.torque(&spin, &field);
    assert_eq!(t, Vec3::new(0, 1, 1));
    assert!(t.y > 0);
    assert!(t.z > 0);
}

#[test]
fn zero_damping_torque_is_pure_precession() {
    let law = TorqueLaw::new(0, 1);
    let spin = Vec3::new(3, -5, 7);
    let field = Vec3::new(2, 11, -4);
    let t = law.torque(&spin, &field);
    // Exactly the negated cross product, and orthogonal to the spin.
    assert_eq!(t, spin.cross(&field).negated());
    assert_eq!(t, Vec3::new(57, -26, -43));
    assert_eq!(t.dot(&spin), 0);
}

#[test]
fn damped_torque_is_orthogonal_to_spin_too() {
    let law = TorqueLaw::critical();
    let spin = Vec3::new(3, -5, 7);
    let field = Vec3::new(2, 11, -4);
    let t = law.torque(&spin, &field);
    assert_eq!(t.dot(&spin), 0);
}

#[test]
fn fractional_damping_weighs_the_two_terms() {
    // damping 1/2: torque is -(2 * (s x f) + 1 * (s x (s x f))).
    let law = TorqueLaw::new(1, 2);
    let spin = Vec3::new(1, 0, 0);
    let field = Vec3::new(0, 0, 1);
    assert_eq!(law.torque(&spin, &field), Vec3::new(0, 2, 1));
}

#[test]
fn parallel_spin_feels_no_torque() {
    let law = TorqueLaw::critical();
    let spin = Vec3::new(2, -3, 5);
    let field = spin.scaled(4);
    assert_eq!(law.torque(&spin, &field), Vec3::new(0, 0, 0));
}

#[test]
fn torque_is_deterministic() {
    let law = TorqueLaw::new(3, 7);
    let spin = Vec3::new(12, -44, 9);
    let field = Vec3::new(-8, 15, 301);
    assert_eq!(law.torque(&spin, &field), law.torque(&spin, &field));
}
