use waypoint_patrol::{Dimensionality, Offset3, Vector3, Velocity};

#[test]
fn vector_new_keeps_its_coordinates() {
    let point = Vector3::new(-4, 6, i32::MAX);
    assert_eq!((point.x, point.y, point.z), (-4, 6, i32::MAX));
    assert_eq!(point, Vector3 { x: -4, y: 6, z: i32::MAX });
}

#[test]
fn offset_new_keeps_its_components() {
    let offset = Offset3::new(1, -2, i64::MIN);
    assert_eq!((offset.dx, offset.dy, offset.dz), (1, -2, i64::MIN));
}

#[test]
fn offset_to_is_target_minus_origin() {
    let origin = Vector3::new(1, 2, 3);
    let target = Vector3::new(4, -6, 3);
    assert_eq!(origin.offset_to(&target), Offset3::new(3, -8, 0));
    assert_eq!(target.offset_to(&origin), Offset3::new(-3, 8, 0));
    assert_eq!(origin.offset_to(&origin), Offset3::new(0, 0, 0));
}

#[test]
fn offset_to_spans_the_whole_lattice() {
    let low = Vector3::new(i32::MIN, 0, i32::MAX);
    let high = Vector3::new(i32::MAX, -1, i32::MIN);
    assert_eq!(low.offset_to(&high), Offset3::new(4_294_967_295, -1, -4_294_967_295));
}

#[test]
fn length_squared_is_the_sum_of_squares() {
    assert_eq!(Offset3::new(0, 0, 0).length_squared(), 0);
    assert_eq!(Offset3::new(3, -4, 12).length_squared(), 169);
    assert_eq!(Offset3::new(-1, -1, -1).length_squared(), 3);
    assert_eq!(Offset3::new(0, 1_000_000_007, 0).length_squared(), 1_000_000_014_000_000_049);
}

#[test]
fn length_squared_of_the_longest_offsets() {
    let quarter: u128 = 1 << 126;
    assert_eq!(Offset3::new(i64::MIN, 0, 0).length_squared(), quarter);
    assert_eq!(Offset3::new(i64::MIN, i64::MIN, i64::MIN).length_squared(), 3 * quarter);
    let max = i64::MAX as u128;
    assert_eq!(Offset3::new(i64::MAX, i64::MAX, i64::MAX).length_squared(), 3 * max * max);
}

#[test]
fn within_compares_against_the_reach() {
    let offset = Offset3::new(3, -4, 12);
    assert!(offset.within(13));
    assert!(offset.within(14));
    assert!(offset.within(u64::MAX));
    assert!(!offset.within(12));
    assert!(!offset.within(0));
    assert!(Offset3::new(0, 0, 0).within(0));
    assert!(!Offset3::new(0, 0, 1).within(0));
}

#[test]
fn within_at_the_ends_of_the_range() {
    let longest = Offset3::new(i64::MIN, i64::MIN, i64::MIN);
    // The length is the square root of three times the 63rd power of two.
    assert!(!longest.within(15_975_348_984_942_515_101));
    assert!(longest.within(15_975_348_984_942_515_102));
    assert!(longest.within(u64::MAX));
    assert!(Offset3::new(i64::MAX, 0, 0).within(i64::MAX as u64));
    assert!(!Offset3::new(i64::MAX, 0, 1).within(i64::MAX as u64));
}

#[test]
fn stationary_means_no_speed_or_no_direction() {
    let nowhere = Offset3::new(0, 0, 0);
    let somewhere = Offset3::new(0, -1, 0);
    assert!(Velocity { toward: nowhere, speed: 0 }.is_stationary());
    assert!(Velocity { toward: nowhere, speed: 9 }.is_stationary());
    assert!(Velocity { toward: somewhere, speed: 0 }.is_stationary());
    assert!(!Velocity { toward: somewhere, speed: 9 }.is_stationary());
    assert!(!Velocity { toward: Offset3::new(1, 0, 0), speed: 1 }.is_stationary());
    assert!(!Velocity { toward: Offset3::new(0, 0, -7), speed: 1 }.is_stationary());
}

#[test]
fn planar_backends_keep_no_third_coordinate() {
    let point = Vector3::new(5, -6, 7);
    assert_eq!(Dimensionality::Dim2.confine(point), Vector3::new(5, -6, 0));
    assert_eq!(Dimensionality::Dim3.confine(point), point);
    assert_eq!(Dimensionality::Dim2.confine(Vector3::new(0, 0, i32::MIN)), Vector3::new(0, 0, 0));
}

#[test]
fn dimensionalities_differ() {
    assert_ne!(Dimensionality::Dim2, Dimensionality::Dim3);
    let copy = Dimensionality::Dim2;
    assert_eq!(copy, Dimensionality::Dim2);
    assert_eq!(format!("{:?}", Dimensionality::Dim3), "Dim3");
}
