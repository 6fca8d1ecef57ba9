use vulkthing::geometry::{directions, Coordinate, Cuboid, Vec3};

fn v(x: i64, y: i64, z: i64) -> Vec3 {
    Vec3 { x, y, z }
}

#[test]
fn constructors() {
    assert_eq!(Cuboid::new_empty(), Cuboid { base: v(0, 0, 0), size: v(0, 0, 0) });
    assert!(Cuboid::new_empty().is_empty());
    assert_eq!(Cuboid::new_unit_cube(v(1, 2, 3)), Cuboid { base: v(1, 2, 3), size: v(1, 1, 1) });
    assert_eq!(Cuboid::new_cube(v(-1, 0, 0), 4).size, v(4, 4, 4));
    assert!(!Cuboid::new(v(0, 0, 0), v(0, 1, 0)).is_empty());
    assert_eq!(<i64 as Coordinate>::zero(), 0);
    assert_eq!(<i64 as Coordinate>::one(), 1);
}

#[test]
fn contains_is_half_open() {
    let c = Cuboid::new(v(-2, 0, 5), v(3, 2, 1));
    assert!(c.contains(v(-2, 0, 5)));
    assert!(c.contains(v(0, 1, 5)));
    assert!(!c.contains(v(1, 1, 5)));
    assert!(!c.contains(v(0, 2, 5)));
    assert!(!c.contains(v(0, 0, 6)));
    assert!(!c.contains(v(-3, 0, 5)));
}

#[test]
fn side_voxels_of_each_face() {
    let c = Cuboid::new(v(0, 0, 0), v(2, 3, 4));
    let up = c.side_voxels(v(0, 0, 1));
    assert_eq!(up.len(), 6);
    assert_eq!(up[0], v(0, 0, 3));
    assert_eq!(up[1], v(0, 1, 3));
    assert_eq!(up[3], v(1, 0, 3));
    let east = c.side_voxels(v(1, 0, 0));
    assert_eq!(east.len(), 12);
    assert_eq!(east[0], v(1, 0, 0));
    assert_eq!(east[5], v(1, 1, 1));
    let south = c.side_voxels(v(0, -1, 0));
    assert_eq!(south.len(), 8);
    assert!(south.iter().all(|p| p.y == 0));
    assert!(Cuboid::new_empty().side_voxels(v(1, 0, 0)).is_empty());
}

#[test]
fn side_voxels_lie_on_the_boundary() {
    let c = Cuboid::new(v(5, -5, 2), v(3, 2, 4));
    for d in directions() {
        for p in c.side_voxels(d) {
            assert!(c.contains(p));
            assert!(!c.contains(v(p.x + d.x, p.y + d.y, p.z + d.z)));
        }
    }
}

#[test]
fn distance_from_inside_counts_steps_out() {
    let c = Cuboid::new(v(0, 0, 0), v(4, 4, 4));
    assert_eq!(c.distance_from_inside(v(1, 2, 3), v(1, 0, 0)), 3);
    assert_eq!(c.distance_from_inside(v(1, 2, 3), v(-1, 0, 0)), 2);
    assert_eq!(c.distance_from_inside(v(1, 2, 3), v(0, 0, 1)), 1);
    assert_eq!(c.distance_from_inside(v(1, 2, 3), v(0, -1, 0)), 3);
}

#[test]
fn extend_adds_one_layer() {
    let c = Cuboid::new(v(0, 0, 0), v(2, 2, 2));
    assert_eq!(c.extend_in_direction(v(1, 0, 0)), Cuboid::new(v(0, 0, 0), v(3, 2, 2)));
    assert_eq!(c.extend_in_direction(v(0, -1, 0)), Cuboid::new(v(0, -1, 0), v(2, 3, 2)));
    let e = c.extend_in_direction(v(0, 0, -1));
    assert!(e.contains(v(1, 1, -1)));
    assert!(!c.contains(v(1, 1, -1)));
}

#[test]
fn six_directions() {
    assert_eq!(
        directions(),
        [v(1, 0, 0), v(-1, 0, 0), v(0, 1, 0), v(0, -1, 0), v(0, 0, 1), v(0, 0, -1)]
    );
}

#[test]
fn side_voxels_are_the_whole_face_once() {
    let c = Cuboid::new(v(-2, 5, 1), v(3, 4, 2));
    for d in directions() {
        let side = c.side_voxels(d);
        let expected = if d.x != 0 { 4 * 2 } else if d.y != 0 { 3 * 2 } else { 3 * 4 };
        assert_eq!(side.len(), expected);
        for i in 0..side.len() {
            for j in 0..i {
                assert_ne!(side[i], side[j]);
            }
        }
        let mut face = 0;
        for x in -4..4 {
            for y in 3..11 {
                for z in -1..5 {
                    let p = v(x, y, z);
                    let on_face = c.contains(p) && !c.contains(v(x + d.x, y + d.y, z + d.z));
                    assert_eq!(side.contains(&p), on_face);
                    if on_face {
                        face += 1;
                    }
                }
            }
        }
        assert_eq!(face, expected);
    }
}
