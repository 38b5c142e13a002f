use arena_core::vector::Vec3;

#[test]
fn zero_vector_is_zero() {
    assert!(Vec3::zero().is_zero());
    assert_eq!(Vec3::zero(), Vec3::new(0, 0, 0));
    assert!(!Vec3::new(0, 1, 0).is_zero());
    assert!(!Vec3::new(0, 0, -1).is_zero());
}

#[test]
fn squared_length_is_the_sum_of_squares() {
    assert_eq!(Vec3::new(3, 4, 12).length_squared(), 169);
    assert_eq!(Vec3::new(-3_000, 0, 4_000).length_squared(), 25_000_000);
    assert_eq!(Vec3::zero().length_squared(), 0);
}

#[test]
fn squared_length_of_the_longest_vector_fits() {
    let longest = Vec3::new(i32::MIN, i32::MIN, i32::MIN);
    assert_eq!(longest.length_squared(), 3 * (1u64 << 62));
}

#[test]
fn squared_distance_between_points() {
    let a = Vec3::new(1_000, 7_000, -2_000);
    let b = Vec3::new(4_000, 7_000, 2_000);
    assert_eq!(a.distance_squared(&b), 25_000_000);
    assert_eq!(b.distance_squared(&a), 25_000_000);
    assert_eq!(a.distance_squared(&a), 0);
}

#[test]
fn squared_distance_between_the_farthest_points() {
    let low = Vec3::new(i32::MIN, i32::MIN, i32::MIN);
    let high = Vec3::new(i32::MAX, i32::MAX, i32::MAX);
    let side: u128 = (1u128 << 32) - 1;
    assert_eq!(low.distance_squared(&high), 3 * side * side);
}

#[test]
fn normalized_has_unit_length_rounded_down() {
    assert_eq!(Vec3::new(1_000, 0, 1_000).normalized(), Vec3::new(707, 0, 707));
    assert_eq!(Vec3::new(3, 4, 0).normalized(), Vec3::new(600, 800, 0));
    assert_eq!(Vec3::new(1, 1, 0).normalized(), Vec3::new(706, 706, 0));
    assert_eq!(Vec3::new(0, -5, 0).normalized(), Vec3::new(0, -1_000, 0));
    assert_eq!(Vec3::new(i32::MIN, i32::MAX, 5).normalized(), Vec3::new(-707, 707, 0));
}

#[test]
fn normalized_zero_stays_zero() {
    assert_eq!(Vec3::zero().normalized(), Vec3::zero());
}

#[test]
fn normalized_is_never_longer_than_a_unit() {
    let mut x: i32 = -40;
    while x <= 40 {
        let mut z: i32 = -40;
        while z <= 40 {
            let n = Vec3::new(x * 37, 11 * z - x, z * 53).normalized();
            assert!(n.length_squared() <= 1_000_000);
            z += 7;
        }
        x += 7;
    }
}

#[test]
fn direction_points_from_here_to_there() {
    let here = Vec3::new(0, 7_000, 0);
    let there = Vec3::new(3_000, 7_000, 4_000);
    assert_eq!(here.direction_to(&there), Vec3::new(600, 0, 800));
    assert_eq!(there.direction_to(&here), Vec3::new(-600, 0, -800));
    assert_eq!(here.direction_to(&here), Vec3::zero());
}

#[test]
fn clamping_cuts_long_vectors_back() {
    assert_eq!(Vec3::new(30_000, 0, 40_000).clamped_to(8_000), Vec3::new(4_800, 0, 6_400));
    assert_eq!(Vec3::new(3_000, 0, 4_000).clamped_to(8_000), Vec3::new(3_000, 0, 4_000));
    assert_eq!(Vec3::new(3_000, 0, 4_000).clamped_to(5_000), Vec3::new(3_000, 0, 4_000));
    assert_eq!(Vec3::new(3_000, 0, 4_000).clamped_to(0), Vec3::zero());
}

#[test]
fn clamped_vector_keeps_within_the_limit() {
    let limits: [u32; 4] = [1, 999, 7_000, 18_000];
    let mut k: i32 = 1;
    while k < 2_000_000 {
        for limit in limits {
            let v = Vec3::new(k, -3 * k, k / 2).clamped_to(limit);
            assert!(v.length_squared() <= (limit as u64) * (limit as u64));
        }
        k *= 3;
    }
}

#[test]
fn scaling_multiplies_by_thousandths() {
    assert_eq!(Vec3::new(1_000, -2_000, 3_000).scaled(900), Vec3::new(900, -1_800, 2_700));
    assert_eq!(Vec3::new(1_000, 1_000, 1_000).scaled(1_500), Vec3::new(1_500, 1_500, 1_500));
    assert_eq!(Vec3::new(1, -1, 9).scaled(900), Vec3::new(0, 0, 8));
    assert_eq!(Vec3::new(5, 5, 5).scaled(-1_000), Vec3::new(-5, -5, -5));
}

#[test]
fn scaling_stops_at_the_end_of_the_range() {
    assert_eq!(
        Vec3::new(i32::MAX, i32::MIN, 0).scaled(2_000),
        Vec3::new(i32::MAX, i32::MIN, 0)
    );
}

#[test]
fn sum_adds_component_by_component() {
    let a = Vec3::new(1, 2, 3);
    let b = Vec3::new(-10, 20, -30);
    assert_eq!(a.plus(&b), Vec3::new(-9, 22, -27));
}

#[test]
fn sum_stops_at_the_end_of_the_range() {
    let a = Vec3::new(i32::MAX, i32::MIN, 0);
    let b = Vec3::new(1, -1, 0);
    assert_eq!(a.plus(&b), Vec3::new(i32::MAX, i32::MIN, 0));
}

#[test]
fn normalized_keeps_a_direction_for_every_vector_but_zero() {
    let mut x: i32 = -6;
    while x <= 6 {
        let mut y: i32 = -6;
        while y <= 6 {
            let mut z: i32 = -6;
            while z <= 6 {
                let v = Vec3::new(x, y, z);
                let n = v.normalized();
                assert_eq!(n.is_zero(), v.is_zero());
                assert!(n.x as i64 * x as i64 >= 0);
                assert!(n.y as i64 * y as i64 >= 0);
                assert!(n.z as i64 * z as i64 >= 0);
                assert!(v.is_zero() || n.length_squared() >= 990_000);
                z += 1;
            }
            y += 1;
        }
        x += 1;
    }
    let far = Vec3::new(i32::MAX, i32::MIN, i32::MAX).normalized();
    assert_eq!(far, Vec3::new(577, -577, 577));
}
