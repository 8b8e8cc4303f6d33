use bus_zombie_core::car_main_player::{CarMainPlayer, Msg};
use bus_zombie_core::geom::Vec3i;
use bus_zombie_core::ground::{Ground, BY, CELL_ORIGIN_OFFSET_MILLI, MUL_MILLI};
use bus_zombie_core::landscape::{AtCell, Landscape, LandscapeObject, WorldRecord};
use bus_zombie_core::motion::IdAllocator;
use bus_zombie_core::passengers::Passenger;
use bus_zombie_core::scenery::SceneryType;

fn v(x: i64, y: i64, z: i64) -> Vec3i {
    Vec3i { x, y, z }
}

fn origin(x: usize, y: usize) -> Vec3i {
    v(
        x as i64 * MUL_MILLI - CELL_ORIGIN_OFFSET_MILLI,
        0,
        y as i64 * MUL_MILLI - CELL_ORIGIN_OFFSET_MILLI,
    )
}

/// A full grid of flat cells; `centre_objects` go into the middle cell.
fn world(centre_objects: Vec<LandscapeObject>) -> Ground {
    let mut land = Vec::new();
    for y in 0..BY {
        let mut row = Vec::new();
        for x in 0..BY {
            let heights = vec![vec![AtCell { height: 0 }; 32]; 32];
            let objects = if x == 2 && y == 2 {
                centre_objects.clone()
            } else {
                Vec::new()
            };
            let cell = Landscape::from_parts(
                origin(x, y),
                format!("road_{}_{}", x, y).into_bytes(),
                heights,
                objects,
                Vec::new(),
            )
            .expect("well-formed cell");
            row.push(cell);
        }
        land.push(row);
    }
    Ground::new(land).expect("well-formed grid")
}

fn road_square(half: i64) -> LandscapeObject {
    LandscapeObject {
        vertices: vec![
            v(-half, 0, -half),
            v(half, 0, -half),
            v(half, 0, half),
            v(-half, 0, half),
        ],
        description: b"road_ns".to_vec(),
    }
}

#[test]
fn off_road_accumulator_rises_then_resets_once() {
    // no roads anywhere: every tick accumulates penalty
    let ground = world(Vec::new());
    let mut ids = IdAllocator::new();
    let mut car = CarMainPlayer::new(&mut ids);
    let mut crossings = 0;
    let mut last = car.off_road;
    let mut ticks = 0u64;
    while crossings == 0 && ticks < 200 {
        ticks += 1;
        car.update(100, &ground, ticks);
        // strictly increasing while below the threshold (dt < 200 ms)
        assert!(car.off_road > last, "accumulator must rise while off-road");
        last = car.off_road;
        if car.off_road_too_much() {
            crossings += 1;
            assert_eq!(car.off_road, 0, "reset zeroes the accumulator exactly");
            last = 0;
        }
    }
    assert_eq!(crossings, 1, "the reset event fires once per crossing");
    assert!(!car.off_road_too_much(), "no second event without a new crossing");
}

#[test]
fn on_road_keeps_accumulator_at_zero_and_reports_the_label() {
    let ground = world(vec![road_square(3000)]);
    let mut ids = IdAllocator::new();
    let mut car = CarMainPlayer::new(&mut ids);
    for t in 1..=20u64 {
        car.update(25, &ground, t);
        assert_eq!(car.off_road, 0);
        assert!(matches!(car.msg, Msg::Road(_)));
    }
}

#[test]
fn height_rollback_keeps_position_and_orientation_advances() {
    // terrain at the vehicle's height: the tentative sink is refused
    let mut land_height = vec![vec![AtCell { height: 500_000 }; 32]; 32];
    land_height[0][0].height = 500_000;
    let mut land = Vec::new();
    for y in 0..BY {
        let mut row = Vec::new();
        for x in 0..BY {
            let cell = Landscape::from_parts(
                origin(x, y),
                format!("road_{}_{}", x, y).into_bytes(),
                land_height.clone(),
                Vec::new(),
                Vec::new(),
            )
            .expect("cell");
            row.push(cell);
        }
        land.push(row);
    }
    let ground = Ground::new(land).expect("grid");
    let mut ids = IdAllocator::new();
    let mut car = CarMainPlayer::new(&mut ids);
    car.accelerate(200, &ground);
    car.steer_rotation_y_constant(500);
    let before = car.movement_collision.position;
    car.update(25, &ground, 1);
    // translation held exactly; the yaw delta was still composed
    assert_eq!(car.movement_collision.position, before);
    assert_eq!(car.yaw_mdeg, 359_500);
    assert_eq!(car.gravity, 0, "a rollback grounds the vehicle");
}

#[test]
fn agent_lifecycle_docile_to_removed() {
    let ground = world(Vec::new());
    let mut ids = IdAllocator::new();
    // spawn far from the chase target so neither pickup nor contact fires
    let far = v(10_000, 200, 10_000);
    let mut p = Passenger::new(v(0, 200, 0), &mut ids);
    p.zombie_countdown = 100; // 0.1 s
    let mut tick = 0u64;

    // one 0.2 s tick: the countdown runs out, the turning-hostile phase starts
    tick += 1;
    let (fin, _, _) = p.update(200, &ground, tick, far);
    assert!(!fin && !p.zombie && p.turning_zombie == 1);

    // 101 further ticks of 16 ms: the agent turns hostile
    for _ in 0..101 {
        tick += 1;
        p.update(16, &ground, tick, far);
    }
    assert!(p.zombie, "hostile after the turning phase");
    assert!(!p.zombie_exploding);

    // within hostile-contact distance: one tick triggers the self-destruct
    let near = p.movement_collision.position;
    tick += 1;
    let (fin, scored, exploded) = p.update(16, &ground, tick, near);
    assert!(exploded && !scored && !fin);
    assert!(p.zombie_exploding && p.zombie_countdown == 500);

    // ticking until the 0.5 s exploding timer elapses finishes exactly once
    let mut finishes = 0;
    for _ in 0..40 {
        tick += 1;
        let (fin, _, _) = p.update(16, &ground, tick, far);
        if fin {
            finishes += 1;
            break; // the orchestrator removes the agent here
        }
    }
    assert_eq!(finishes, 1);
}

#[test]
fn docile_pickup_awards_points() {
    let ground = world(Vec::new());
    let mut ids = IdAllocator::new();
    let mut p = Passenger::new(v(0, 200, 0), &mut ids);
    p.zombie_countdown = 100_000;
    let here = p.movement_collision.position;
    let (fin, scored, exploded) = p.update(16, &ground, 1, here);
    assert!(fin && scored && !exploded);
}

#[test]
fn heading_turn_converges_without_overshoot() {
    // a road under the agent: the forward probe succeeds, so the
    // stuck-recovery never re-targets and the heading is held
    let ground = world(vec![road_square(3000)]);
    let mut ids = IdAllocator::new();
    let far = v(10_000, 200, 10_000);
    let mut p = Passenger::new(v(0, 200, 0), &mut ids);
    p.zombie_countdown = 1_000_000; // stays docile throughout
    p.rotation_angle = 0;
    p.rotation_y = 0;
    p.target_angle = 90;
    p.angle_of_rotation = 0;
    let mut tick = 0u64;
    // the facing advances by the increment chosen the tick before, one
    // degree per tick in the shorter direction: 90 degrees in 91 ticks
    for k in 1..=91u64 {
        tick += 1;
        p.update(16, &ground, tick, far);
        let expect = std::cmp::min(k - 1, 90) as i64;
        assert_eq!(p.rotation_angle, expect, "no overshoot, no oscillation");
        assert_eq!(p.target_angle, 90);
    }
    assert_eq!(p.rotation_angle, 90);
    // and it holds the heading afterwards
    tick += 1;
    p.update(16, &ground, tick, far);
    assert_eq!(p.rotation_angle, 90);
}

#[test]
fn set_random_time_to_zombie_stays_in_range() {
    let ground = world(Vec::new());
    let _ = &ground;
    let mut ids = IdAllocator::new();
    for _ in 0..50 {
        let mut p = Passenger::new(v(0, 200, 0), &mut ids);
        p.set_random_time_to_zombie();
        assert!(40_000 <= p.zombie_countdown && p.zombie_countdown < 120_000);
        assert!(100 <= p.speed && p.speed < 150);
    }
}

#[test]
fn world_records_build_a_cell() {
    let mut ids = IdAllocator::new();
    // a quad of four vertex rows, labeled, closed by a side record,
    // plus one tree; raw coordinates are height-field steps in milli
    let records = vec![
        WorldRecord::Description(b"road_ns".to_vec()),
        WorldRecord::Vertex { x: 10_000, y: 0, z: 10_000 },
        WorldRecord::Vertex { x: 22_000, y: 0, z: 10_000 },
        WorldRecord::Vertex { x: 22_000, y: 0, z: 22_000 },
        WorldRecord::Vertex { x: 10_000, y: 0, z: 22_000 },
        WorldRecord::Sides { s1: false, s2: false, s3: false, s4: false },
        WorldRecord::Object { kind: b"tree".to_vec(), x: 16_000, y: 0, z: 16_000 },
    ];
    let heights = vec![vec![AtCell { height: 0 }; 32]; 32];
    let cell = Landscape::new(v(0, 0, 0), b"road_2_2".to_vec(), heights, records, &mut ids)
        .expect("well-formed records");
    assert_eq!(cell.landscape_objects.len(), 1);
    assert_eq!(cell.landscape_objects[0].description, b"road_ns".to_vec());
    // raw step 16000 scales to 16000/5 - 3200 = 0: the cell centre
    let hit = cell.object_at(0, 0).expect("inside the quad");
    assert_eq!(hit.description, b"road_ns".to_vec());
    assert_eq!(cell.scenery_instances.len(), 1);
    assert!(matches!(cell.scenery_instances[0].scenery_type, SceneryType::TREE));
    assert_eq!(cell.scenery_instances[0].position, v(0, 0, 0));
}

#[test]
fn malformed_records_are_fatal() {
    let mut ids = IdAllocator::new();
    let heights = vec![vec![AtCell { height: 0 }; 32]; 32];
    // a polygon closed with fewer than three vertices
    let records = vec![
        WorldRecord::Vertex { x: 10_000, y: 0, z: 10_000 },
        WorldRecord::Sides { s1: false, s2: false, s3: false, s4: false },
    ];
    assert!(Landscape::new(v(0, 0, 0), b"bad".to_vec(), heights.clone(), records, &mut ids).is_none());
    // a coordinate out of numeric range
    let records = vec![WorldRecord::Vertex { x: 5_000_000, y: 0, z: 0 }];
    assert!(Landscape::new(v(0, 0, 0), b"bad".to_vec(), heights, records, &mut ids).is_none());
}

#[test]
fn visible_cells_cover_the_neighborhood() {
    let ground_objects = Vec::new();
    let mut ground = world(ground_objects);
    ground.update(v(0, 0, 0), 0);
    let cells = ground.displayed_cells();
    for dx in -1i32..=1 {
        for dz in -1i32..=1 {
            assert!(cells.contains(&(2 + dx, 2 + dz)));
        }
    }
    // duplicate-free
    for i in 0..cells.len() {
        for j in (i + 1)..cells.len() {
            assert_ne!(cells[i], cells[j]);
        }
    }
}
