use dispenser::geometry::{
    drop_sink_32nds, to_data3d, to_normal, to_rotation16, BlockPos, DispenseContext, Facing,
    Vector3,
};

const ALL: [Facing; 6] = [
    Facing::North,
    Facing::East,
    Facing::South,
    Facing::West,
    Facing::Up,
    Facing::Down,
];

fn pos(x: i32, y: i32, z: i32) -> BlockPos {
    BlockPos { x, y, z }
}

#[test]
fn normals_point_where_the_block_faces() {
    let normals = ALL.map(to_normal);
    let expected = [
        (0, 0, -1),
        (1, 0, 0),
        (0, 0, 1),
        (-1, 0, 0),
        (0, 1, 0),
        (0, -1, 0),
    ];
    for (normal, (x, y, z)) in normals.into_iter().zip(expected) {
        assert_eq!(normal, Vector3 { x, y, z });
    }
}

#[test]
fn smoke_numbers_of_all_facings() {
    assert_eq!(ALL.map(to_data3d), [2, 5, 3, 4, 1, 0]);
}

#[test]
fn skull_rotations_of_all_facings() {
    assert_eq!(ALL.map(to_rotation16), [8, 12, 0, 4, 0, 0]);
}

#[test]
fn opposite_rotations_are_half_a_turn_apart() {
    for facing in [Facing::North, Facing::East, Facing::South, Facing::West] {
        let turned = (to_rotation16(facing) + 8) % 16;
        assert_eq!(turned, to_rotation16(facing.opposite()));
    }
}

#[test]
fn thrown_items_leave_below_the_centre() {
    assert_eq!(ALL.map(drop_sink_32nds), [5, 5, 5, 5, 4, 4]);
}

#[test]
fn opposites_of_all_facings() {
    assert_eq!(
        ALL.map(Facing::opposite),
        [
            Facing::South,
            Facing::West,
            Facing::North,
            Facing::East,
            Facing::Down,
            Facing::Up
        ]
    );
    assert_eq!(ALL.map(|facing| facing.opposite().opposite()), ALL);
}

#[test]
fn stepping_back_ends_where_it_began() {
    let start = pos(3, 64, -7);
    for facing in ALL {
        let there = start.offset(to_normal(facing));
        assert_ne!(there, start);
        assert_eq!(there.offset(to_normal(facing.opposite())), start);
    }
}

#[test]
fn positions_wrap_around() {
    assert_eq!(pos(0, i32::MAX, 0).up(), pos(0, i32::MIN, 0));
    assert_eq!(pos(0, i32::MIN, 0).down(), pos(0, i32::MAX, 0));
    assert_eq!(pos(1, 2, 3).up(), pos(1, 3, 3));
    assert_eq!(pos(1, 2, 3).down(), pos(1, 1, 3));
}

#[test]
fn each_facing_has_a_target_of_its_own() {
    let targets = ALL.map(|facing| DispenseContext::new(pos(10, 20, 30), facing).target_position());
    assert_eq!(
        targets,
        [
            pos(10, 20, 29),
            pos(11, 20, 30),
            pos(10, 20, 31),
            pos(9, 20, 30),
            pos(10, 21, 30),
            pos(10, 19, 30)
        ]
    );
}
