use bus_zombie_core::geom::Vec3i;
use bus_zombie_core::ground::{wrap_coord_x, wrap_coord_z, wrap_value, Ground};
use bus_zombie_core::landscape::{
    area2_x_z, description_contains_road, polygon_contains_x_z, Landscape, LandscapeObject,
};
use bus_zombie_core::motion::IdAllocator;
use bus_zombie_core::scenery::{Scenery, SceneryType};
use bus_zombie_core::sound::{pause_any_finished_sounds, play, sound_of, stop, Playing, SoundState};

fn v(x: i64, y: i64, z: i64) -> Vec3i {
    Vec3i { x, y, z }
}

#[test]
fn wrap_value_brings_indices_in_range() {
    assert_eq!(wrap_value(-1), 4);
    assert_eq!(wrap_value(5), 0);
    assert_eq!(wrap_value(12), 2);
    assert_eq!(wrap_value(0), 0);
}

#[test]
fn wrap_step_shifts_by_one_world_footprint() {
    // beyond the +x boundary: shifted back by exactly 32000 and in range
    assert_eq!(wrap_coord_x(16_001), -15_999);
    assert_eq!(wrap_coord_x(-16_001), 15_999);
    assert_eq!(wrap_coord_x(16_000), 16_000);
    // the z rule is inclusive at the boundary
    assert_eq!(wrap_coord_z(16_000), -16_000);
    assert_eq!(wrap_coord_z(-16_000), 16_000);
    assert_eq!(wrap_coord_z(15_999), 15_999);
}

#[test]
fn cell_resolution_is_total_and_saturates() {
    for &x in &[-2_000_000i64, -16_000, -1, 0, 6_399, 16_000, 2_000_000] {
        for &z in &[-2_000_000i64, -16_000, 0, 16_000, 2_000_000] {
            let (cx, cz) = Ground::get_current_cell(x, z);
            assert!(cx < 5 && cz < 5);
        }
    }
    assert_eq!(Ground::get_current_cell(0, 0), (2, 2));
    assert_eq!(Ground::get_current_cell(-16_000, 16_000), (0, 4));
}

fn square(cx: i64, cz: i64, half: i64, label: &str) -> LandscapeObject {
    LandscapeObject {
        vertices: vec![
            v(cx - half, 0, cz - half),
            v(cx + half, 0, cz - half),
            v(cx + half, 0, cz + half),
            v(cx - half, 0, cz + half),
        ],
        description: label.as_bytes().to_vec(),
    }
}

fn flat_cell(ids: &mut IdAllocator, objects: Vec<LandscapeObject>, scenery: Vec<Scenery>) -> Landscape {
    let _ = ids;
    let heights = vec![vec![bus_zombie_core::landscape::AtCell { height: 0 }; 32]; 32];
    Landscape::from_parts(v(0, 0, 0), b"road_0_0".to_vec(), heights, objects, scenery)
        .expect("well-formed cell")
}

#[test]
fn smallest_containing_polygon_wins_nested() {
    let mut ids = IdAllocator::new();
    let cell = flat_cell(&mut ids, vec![square(0, 0, 3000, "grass"), square(0, 0, 500, "road_ns")], vec![]);
    let hit = cell.object_at(0, 100).expect("contained");
    assert_eq!(hit.description, b"road_ns".to_vec());
}

#[test]
fn smallest_containing_polygon_wins_partial_overlap() {
    let mut ids = IdAllocator::new();
    // big square overlapping a smaller one; query in the overlap
    let cell = flat_cell(
        &mut ids,
        vec![square(-200, 0, 1500, "big"), square(600, 0, 900, "small")],
        vec![],
    );
    let hit = cell.object_at(300, 0).expect("contained");
    assert_eq!(hit.description, b"small".to_vec());
}

#[test]
fn equal_area_tie_resolves_to_first() {
    let mut ids = IdAllocator::new();
    let cell = flat_cell(
        &mut ids,
        vec![square(0, 0, 800, "first"), square(100, 0, 800, "second")],
        vec![],
    );
    let hit = cell.object_at(50, 0).expect("contained");
    assert_eq!(hit.description, b"first".to_vec());
}

#[test]
fn polygon_and_area_basics() {
    let sq = square(0, 0, 1000, "x");
    assert!(polygon_contains_x_z(0, 0, &sq.vertices));
    assert!(!polygon_contains_x_z(5000, 0, &sq.vertices));
    // doubled area of a 2000 x 2000 square
    assert_eq!(area2_x_z(&sq.vertices), 2 * 2000 * 2000);
}

#[test]
fn road_label_detection() {
    assert!(description_contains_road(&b"road_ns".to_vec()));
    assert!(description_contains_road(&b"main road!".to_vec()));
    assert!(!description_contains_road(&b"grass".to_vec()));
    assert!(!description_contains_road(&b"roa".to_vec()));
}

#[test]
fn scenery_constructors_carry_their_radii() {
    let mut ids = IdAllocator::new();
    let t = Scenery::new_tree(v(0, 0, 0), &mut ids);
    let h = Scenery::new_house(v(0, 0, 0), &mut ids);
    let o = Scenery::new_office1(v(0, 0, 0), &mut ids);
    assert_eq!(t.collision_radius, 250);
    assert_eq!(h.collision_radius, 1000);
    assert_eq!(o.collision_radius, 1000);
    assert!(matches!(t.scenery_type, SceneryType::TREE));
    assert!(t.movement_collision.id != h.movement_collision.id);
}

#[test]
fn sound_state_transitions() {
    let mut s = SoundState { entries: Vec::new() };
    play(&mut s, 1);
    assert!(matches!(sound_of(&s, 1), Some(Playing::Playing)));
    stop(&mut s, 1);
    assert!(matches!(sound_of(&s, 1), Some(Playing::Finished)));
    assert!(sound_of(&s, 2).is_none());
    // an ended clip is moved to finished exactly once
    s.entries.push((3, Playing::Ended));
    let paused = pause_any_finished_sounds(&mut s);
    assert_eq!(paused, vec![3]);
    assert!(matches!(sound_of(&s, 3), Some(Playing::Finished)));
    let paused_again = pause_any_finished_sounds(&mut s);
    assert!(paused_again.is_empty());
}
