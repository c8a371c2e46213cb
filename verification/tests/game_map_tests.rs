use vehicle_sim::game_map::{
    get_voxel_pos, GameMap, Voxel, VoxelType, WorldVoxelPos, ALL_SIDES_EMPTY,
};
use vehicle_sim::geometry::vec3d::Vec3;
use vehicle_sim::scalar::Scalar;
use vehicle_sim::vehicle::locomotion::SurfaceType;

fn voxel_types() -> Vec<VoxelType> {
    vec![
        VoxelType { surface_type: None, empty_sides: ALL_SIDES_EMPTY },
        VoxelType { surface_type: Some(SurfaceType::Ground), empty_sides: 0 },
        VoxelType { surface_type: Some(SurfaceType::Water), empty_sides: 0b0001_0000 },
    ]
}

fn at(x: i32, y: i32, z: i32) -> WorldVoxelPos {
    WorldVoxelPos { x, y, z }
}

fn small_map() -> GameMap {
    GameMap::new(at(-2, -2, -2), 4, 4, 4, voxel_types(), Voxel { voxel_type: 0 }).unwrap()
}

#[test]
fn a_point_lies_in_the_voxel_of_its_rounded_down_coordinates() {
    let p = Vec3::new(Scalar::from_ratio(3, 2), Scalar::from_ratio(-1, 10), Scalar::from_int(-2));
    assert_eq!(get_voxel_pos(p), at(1, -1, -2));
    assert_eq!(get_voxel_pos(Vec3::zero()), at(0, 0, 0));
    assert_eq!(
        get_voxel_pos(Vec3::new(Scalar::from_raw(-1), Scalar::from_raw(20479), Scalar::from_raw(20480))),
        at(-1, 0, 1)
    );
}

#[test]
fn a_new_map_is_filled_and_ends_at_its_sides() {
    let map = small_map();
    assert_eq!(map.get_voxel_at(at(-2, -2, -2)), Some(Voxel { voxel_type: 0 }));
    assert_eq!(map.get_voxel_at(at(1, 1, 1)), Some(Voxel { voxel_type: 0 }));
    assert_eq!(map.get_voxel_at(at(2, 0, 0)), None);
    assert_eq!(map.get_voxel_at(at(0, -3, 0)), None);
    assert_eq!(map.get_voxel_at(at(0, 0, 2)), None);
    assert_eq!(map.get_voxel_at(at(i32::MIN, i32::MAX, 0)), None);
    assert_eq!(map.get_voxel_types().len(), 3);
}

#[test]
fn a_map_that_would_be_too_large_is_not_made() {
    let too_many = GameMap::new(at(0, 0, 0), 1 << 16, 1 << 16, 2, voxel_types(), Voxel { voxel_type: 0 });
    assert!(too_many.is_none());
    let too_long =
        GameMap::new(at(0, 0, 0), usize::MAX, 1, 1, voxel_types(), Voxel { voxel_type: 0 });
    assert!(too_long.is_none());
    let empty = GameMap::new(at(0, 0, 0), usize::MAX, 0, 7, voxel_types(), Voxel { voxel_type: 0 });
    assert!(empty.is_some());
    assert_eq!(empty.unwrap().get_voxel_at(at(0, 0, 0)), None);
}

#[test]
fn a_voxel_is_set_where_the_map_has_one() {
    let mut map = small_map();
    assert!(map.set_voxel(at(1, -2, 0), Voxel { voxel_type: 1 }));
    assert_eq!(map.get_voxel_at(at(1, -2, 0)), Some(Voxel { voxel_type: 1 }));
    // its neighbours stay
    assert_eq!(map.get_voxel_at(at(0, -2, 0)), Some(Voxel { voxel_type: 0 }));
    assert_eq!(map.get_voxel_at(at(1, -1, 0)), Some(Voxel { voxel_type: 0 }));
    assert_eq!(map.get_voxel_at(at(1, -2, 1)), Some(Voxel { voxel_type: 0 }));
    assert_eq!(map.get_voxel_at(at(1, -2, -1)), Some(Voxel { voxel_type: 0 }));
    assert!(!map.set_voxel(at(2, 0, 0), Voxel { voxel_type: 1 }));
    assert_eq!(map.get_voxel_at(at(2, 0, 0)), None);
}

#[test]
fn every_voxel_has_its_own_place() {
    let mut map = small_map();
    let mut n: u16 = 0;
    for z in -2..2 {
        for y in -2..2 {
            for x in -2..2 {
                assert!(map.set_voxel(at(x, y, z), Voxel { voxel_type: n }));
                n += 1;
            }
        }
    }
    let mut n: u16 = 0;
    for z in -2..2 {
        for y in -2..2 {
            for x in -2..2 {
                assert_eq!(map.get_voxel_at(at(x, y, z)), Some(Voxel { voxel_type: n }));
                n += 1;
            }
        }
    }
}

#[test]
fn the_type_of_a_voxel_is_the_one_it_names() {
    let mut map = small_map();
    map.set_voxel(at(0, 0, -1), Voxel { voxel_type: 1 });
    map.set_voxel(at(0, 0, -2), Voxel { voxel_type: 2 });
    map.set_voxel(at(1, 0, -2), Voxel { voxel_type: 9 });
    assert_eq!(map.get_type_of_voxel_at(at(0, 0, 0)), Some(voxel_types()[0]));
    assert_eq!(map.get_type_of_voxel_at(at(0, 0, -1)), Some(voxel_types()[1]));
    assert_eq!(map.get_type_of_voxel_at(at(0, 0, -2)), Some(voxel_types()[2]));
    // a voxel that names no type has none
    assert_eq!(map.get_type_of_voxel_at(at(1, 0, -2)), None);
    // nor has a place outside the map
    assert_eq!(map.get_type_of_voxel_at(at(0, 0, 5)), None);
}

#[test]
fn a_voxel_is_solid_unless_all_its_sides_are_empty() {
    let mut map = small_map();
    map.set_voxel(at(0, 0, -1), Voxel { voxel_type: 1 });
    map.set_voxel(at(0, 0, -2), Voxel { voxel_type: 2 });
    map.set_voxel(at(1, 0, -2), Voxel { voxel_type: 9 });
    assert!(!map.is_voxel_solid(at(0, 0, 0)));
    assert!(map.is_voxel_solid(at(0, 0, -1)));
    assert!(map.is_voxel_solid(at(0, 0, -2)));
    assert!(!map.is_voxel_solid(at(1, 0, -2)));
    assert!(!map.is_voxel_solid(at(0, 0, 5)));
}

#[test]
fn voxel_types_tell_their_sides() {
    assert!(voxel_types()[0].is_completely_empty());
    assert!(!voxel_types()[1].is_completely_empty());
    assert!(!voxel_types()[2].is_completely_empty());
    assert_eq!(voxel_types()[0].sides_empty(), 0b0011_1111);
    assert_eq!(voxel_types()[2].sides_empty(), 0b0001_0000);
}
