use radar_core::cal::config::{get_point_2d, get_point_3d, Color, FieldPoint, ObjectType, PointSourceError, UNITS_PER_METRE};

const ALL: [ObjectType; 14] = [
    ObjectType::Car,
    ObjectType::Red,
    ObjectType::Blue,
    ObjectType::Red1,
    ObjectType::Red2,
    ObjectType::Red3,
    ObjectType::Red4,
    ObjectType::Red5,
    ObjectType::Blue1,
    ObjectType::Blue2,
    ObjectType::Blue3,
    ObjectType::Blue4,
    ObjectType::Blue5,
    ObjectType::Env,
];

#[test]
fn armor_categories() {
    for t in ALL.iter() {
        let expected = *t != ObjectType::Car && *t != ObjectType::Env;
        assert_eq!(t.is_armor(), expected);
    }
    assert!(!ObjectType::Car.is_armor());
    assert!(!ObjectType::Env.is_armor());
    assert!(ObjectType::Red3.is_armor());
    assert!(ObjectType::Blue.is_armor());
}

#[test]
fn category_codes_are_distinct_and_ordered() {
    for (i, t) in ALL.iter().enumerate() {
        assert_eq!(t.code(), i as u64);
    }
}

#[test]
fn points_from_config_are_refused() {
    assert_eq!(get_point_3d(true, Color::Red), Err(PointSourceError::NotImplemented));
    assert_eq!(get_point_3d(true, Color::Blue), Err(PointSourceError::NotImplemented));
}

fn metres(p: &FieldPoint) -> (f64, f64, f64) {
    let u = UNITS_PER_METRE as f64;
    (p.x as f64 / u, p.y as f64 / u, p.z as f64 / u)
}

#[test]
fn red_reference_points() {
    let points = get_point_3d(false, Color::Red).unwrap();
    assert_eq!(points.len(), 6);
    assert_eq!(points[0], FieldPoint { x: 882197, y: 863024, z: 61500 });
    assert_eq!(points[1], FieldPoint { x: 882198, y: 929024, z: 61500 });
    assert_eq!(points[2], FieldPoint { x: 2148525, y: 1505599, z: 20000 });
    assert_eq!(points[3], FieldPoint { x: 2522355, y: 1505558, z: 40000 });
    assert_eq!(points[4], FieldPoint { x: 2352354, y: 167667, z: 40000 });
    assert_eq!(points[5], FieldPoint { x: 1025343, y: 717110, z: 60000 });
    let expected = [
        (9.47097 - 0.649, 9.06324 - 0.433, 0.615),
        (9.47098 - 0.649, 9.72324 - 0.433, 0.615),
        (22.13425 - 0.649, 15.48899 - 0.433, 0.2),
        (25.87255 - 0.649, 15.48858 - 0.433, 0.4),
        (24.17254 - 0.649, 2.10967 - 0.433, 0.4),
        (10.90243 - 0.649, 7.60410 - 0.433, 0.6),
    ];
    for (p, e) in points.iter().zip(expected.iter()) {
        let (x, y, z) = metres(p);
        assert!((x - e.0).abs() < 1e-9 && (y - e.1).abs() < 1e-9 && (z - e.2).abs() < 1e-9);
    }
}

#[test]
fn blue_reference_points() {
    let points = get_point_3d(false, Color::Blue).unwrap();
    let expected = [
        (19.86332 - 0.649, 6.83851 - 0.433, 0.615),
        (19.86332 - 0.649, 6.17851 - 0.433, 0.615),
        (7.16102 - 0.649, 0.48926 - 0.433, 0.2),
        (3.42256 - 0.649, 0.58967 - 0.433, 0.4),
        (5.12274 - 0.649, 13.86857 - 0.433, 0.4),
        (18.39284 - 0.649, 8.37415 - 0.433, 0.6),
    ];
    assert_eq!(points.len(), expected.len());
    for (p, e) in points.iter().zip(expected.iter()) {
        let (x, y, z) = metres(p);
        assert!((x - e.0).abs() < 1e-9 && (y - e.1).abs() < 1e-9 && (z - e.2).abs() < 1e-9);
    }
    assert_eq!(points[2], FieldPoint { x: 651202, y: 5626, z: 20000 });
}

#[test]
fn image_points_pair_with_all_but_the_last_reference_point() {
    let threed = get_point_3d(false, Color::Red).unwrap();
    let twod: Vec<(i32, i32)> = vec![(1, 2), (3, 4), (5, 6), (7, 8), (9, 10), (11, 12), (13, 14)];
    let paired = get_point_2d(&threed, &twod);
    assert_eq!(paired, vec![(1, 2), (3, 4), (5, 6), (7, 8), (9, 10)]);
}

#[test]
fn one_reference_point_pairs_with_nothing() {
    let threed = vec![FieldPoint { x: 0, y: 0, z: 0 }];
    let twod: Vec<u8> = vec![];
    assert!(get_point_2d(&threed, &twod).is_empty());
    let twod2: Vec<u8> = vec![7, 8];
    assert!(get_point_2d(&threed, &twod2).is_empty());
}

#[test]
fn image_points_exactly_as_many_as_needed() {
    let threed = vec![0u8, 1, 2];
    let twod = vec![10u8, 20];
    assert_eq!(get_point_2d(&threed, &twod), vec![10, 20]);
}
