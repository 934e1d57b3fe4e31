use road_intersection::capacity::CapacityTracker;
use road_intersection::car::{direction_from_roll, entry_position, route_from_roll, Car, Direction, Route};
use road_intersection::roads::{get_road_positions, Color, Rect};
use road_intersection::simulation::Simulation;
use road_intersection::traffic_light::{
    is_empty_center, select_green, LightState, TrafficLightSystem,
};

fn car_at(id: u64, x: i32, y: i32, direction: Direction, route: Route) -> Car {
    Car {
        id,
        x,
        y,
        direction,
        route,
        color: Color::rgb(0, 191, 255),
        active: true,
        speed: 2,
        stopped: false,
        committed: false,
    }
}

fn push_queued(sim: &mut Simulation, c: Car) {
    sim.capacity.increment(c.direction);
    sim.cars.push(c);
}

fn lights_with_green(direction: Direction) -> TrafficLightSystem {
    let mut lights = TrafficLightSystem::new();
    let mut capacity = CapacityTracker::new();
    capacity.increment(direction);
    lights.update(&capacity, &[]);
    lights
}

fn tick_all(cars: &mut Vec<Car>, lights: &TrafficLightSystem, capacity: &mut CapacityTracker) {
    let snapshot = cars.clone();
    for c in cars.iter_mut() {
        c.update_position(lights, &snapshot, capacity);
    }
}

fn sim_with_green(direction: Direction) -> Simulation {
    let mut sim = Simulation::new();
    sim.capacity.increment(direction);
    sim.update_lights();
    sim.capacity.decrement(direction);
    assert!(sim.lights.can_proceed(direction));
    sim
}

#[test]
fn road_positions_are_fixed() {
    assert_eq!(get_road_positions(), (450, 350, 900, 700));
}

#[test]
fn straight_vehicle_advances_and_exits() {
    let mut sim = sim_with_green(Direction::East);
    let c = Car::new_with_route(0, 350, Direction::East, Route::Straight, &sim.cars).unwrap();
    assert_eq!(c.id, 1);
    push_queued(&mut sim, c);
    let mut n = 0;
    while sim.cars[0].active {
        sim.tick();
        n += 1;
        if sim.cars[0].active {
            assert_eq!(sim.cars[0].x, 2 * n);
            assert_eq!(sim.cars[0].y, 350);
            assert!(sim.cars[0].x <= 900 + 100);
        }
    }
    assert_eq!(sim.cars[0].x, 1002);
    assert_eq!(n, 501);
    assert!(sim.cars[0].committed);
}

#[test]
fn trailing_vehicle_waits_for_safety_gap() {
    let lights = lights_with_green(Direction::East);
    let mut capacity = CapacityTracker { north: 0, south: 0, east: 2, west: 0 };
    let mut cars = vec![
        car_at(1, 100, 350, Direction::East, Route::Straight),
        car_at(2, 50, 350, Direction::East, Route::Straight),
    ];
    let mut resumed = false;
    for _ in 0..20 {
        let gap = cars[0].x - cars[1].x;
        let before = cars[1].x;
        tick_all(&mut cars, &lights, &mut capacity);
        let moved = cars[1].x != before;
        if gap < 70 {
            assert!(!moved);
            assert!(cars[1].stopped);
        }
        if moved {
            assert!(gap >= 70);
            resumed = true;
        }
    }
    assert!(resumed);
    assert_eq!(cars[0].x, 140);
    assert_eq!(cars[1].x, 50 + 2 * 9);
    assert_eq!(capacity.get(Direction::East), 2);
}

#[test]
fn light_goes_to_largest_queue() {
    let mut lights = TrafficLightSystem::new();
    let mut capacity = CapacityTracker::new();
    capacity.increment(Direction::West);
    lights.update(&capacity, &[]);
    assert!(lights.can_proceed(Direction::West));
    let capacity = CapacityTracker { north: 3, south: 0, east: 1, west: 1 };
    lights.update(&capacity, &[]);
    assert!(lights.can_proceed(Direction::North));
    assert!(!lights.can_proceed(Direction::South));
    assert!(!lights.can_proceed(Direction::East));
    assert!(!lights.can_proceed(Direction::West));
    assert_eq!(lights.current_light_index, 0);
}

#[test]
fn spawn_onto_occupied_position_is_rejected() {
    let mut sim = Simulation::new();
    assert!(sim.spawn(Direction::East));
    assert_eq!(sim.cars.len(), 1);
    assert_eq!(sim.capacity.get(Direction::East), 1);
    assert!(!sim.spawn(Direction::East));
    assert_eq!(sim.cars.len(), 1);
    assert_eq!(sim.capacity.get(Direction::East), 1);
    let existing = sim.cars.clone();
    assert!(Car::new(0, 350, Direction::East, &existing).is_none());
}

#[test]
fn tie_break_order_is_north_east_west_south() {
    let t = |n, s, e, w| CapacityTracker { north: n, south: s, east: e, west: w };
    assert_eq!(select_green(&t(0, 0, 0, 0)), Direction::North);
    assert_eq!(select_green(&t(2, 2, 2, 2)), Direction::North);
    assert_eq!(select_green(&t(1, 2, 2, 2)), Direction::East);
    assert_eq!(select_green(&t(1, 2, 1, 2)), Direction::West);
    assert_eq!(select_green(&t(1, 3, 1, 2)), Direction::South);
}

#[test]
fn lights_hold_while_center_is_occupied() {
    let mut lights = TrafficLightSystem::new();
    let capacity = CapacityTracker { north: 0, south: 4, east: 0, west: 0 };
    let in_center = vec![car_at(1, 420, 340, Direction::East, Route::Straight)];
    assert!(!is_empty_center(&in_center));
    lights.update(&capacity, &in_center);
    assert!(lights.can_proceed(Direction::North));
    let outside = vec![car_at(1, 350, 350, Direction::East, Route::Straight)];
    assert!(is_empty_center(&outside));
    lights.update(&capacity, &outside);
    assert!(lights.can_proceed(Direction::South));
}

#[test]
fn exactly_one_light_is_green() {
    let mut lights = TrafficLightSystem::new();
    let count = |l: &TrafficLightSystem| l.lights.iter().filter(|x| x.state == LightState::Green).count();
    assert_eq!(count(&lights), 1);
    for (n, s, e, w) in [(0, 1, 0, 0), (0, 0, 5, 0), (0, 0, 0, 9), (7, 0, 0, 0)] {
        lights.update(&CapacityTracker { north: n, south: s, east: e, west: w }, &[]);
        assert_eq!(count(&lights), 1);
    }
}

#[test]
fn capacity_never_goes_below_zero() {
    let mut c = CapacityTracker::new();
    c.decrement(Direction::South);
    assert_eq!(c.get(Direction::South), 0);
    c.increment(Direction::South);
    c.increment(Direction::South);
    c.decrement(Direction::South);
    assert_eq!(c.get(Direction::South), 1);
    let mut full = CapacityTracker { north: u32::MAX, south: 0, east: 0, west: 0 };
    full.increment(Direction::North);
    assert_eq!(full.get(Direction::North), u32::MAX);
}

#[test]
fn commit_decrements_capacity_once() {
    let lights = lights_with_green(Direction::East);
    let mut capacity = CapacityTracker { north: 0, south: 0, east: 5, west: 0 };
    let mut cars = vec![car_at(1, 340, 350, Direction::East, Route::Straight)];
    for _ in 0..5 {
        tick_all(&mut cars, &lights, &mut capacity);
        assert!(!cars[0].committed);
        assert_eq!(capacity.get(Direction::East), 5);
    }
    assert_eq!(cars[0].x, 350);
    tick_all(&mut cars, &lights, &mut capacity);
    assert!(cars[0].committed);
    assert_eq!(capacity.get(Direction::East), 4);
    for _ in 0..10 {
        tick_all(&mut cars, &lights, &mut capacity);
        assert!(cars[0].committed);
        assert_eq!(capacity.get(Direction::East), 4);
    }
}

#[test]
fn simulation_counts_follow_commits() {
    let mut sim = sim_with_green(Direction::East);
    assert!(sim.spawn(Direction::East));
    assert_eq!(sim.capacity.get(Direction::East), 1);
    for _ in 0..176 {
        sim.tick();
    }
    assert!(sim.cars[0].committed);
    assert_eq!(sim.capacity.get(Direction::East), 0);
}

#[test]
fn red_light_holds_vehicle_at_stop_line() {
    let mut sim = Simulation::new();
    push_queued(&mut sim, car_at(1, 300, 350, Direction::East, Route::Straight));
    for _ in 0..40 {
        sim.tick();
    }
    assert_eq!(sim.cars[0].x, 336);
    assert!(sim.cars[0].stopped);
    assert!(!sim.cars[0].committed);
}

#[test]
fn committed_vehicle_ignores_red_light() {
    let mut sim = Simulation::new();
    let mut c = car_at(1, 380, 350, Direction::East, Route::Straight);
    c.committed = true;
    sim.cars.push(c);
    sim.tick();
    assert_eq!(sim.cars[0].x, 382);
}

#[test]
fn left_and_right_turns() {
    let mut sim = sim_with_green(Direction::East);
    let mut left = car_at(1, 446, 350, Direction::East, Route::Left);
    left.committed = true;
    let mut right = car_at(2, 396, 350, Direction::East, Route::Right);
    right.committed = true;
    let mut south_right = car_at(3, 450, 354, Direction::South, Route::Right);
    south_right.committed = true;
    sim.cars.push(left);
    sim.cars.push(right);
    sim.cars.push(south_right);
    sim.tick();
    assert_eq!(sim.cars[0].direction, Direction::East);
    assert_eq!(sim.cars[1].direction, Direction::East);
    sim.tick();
    assert_eq!((sim.cars[0].x, sim.cars[0].direction, sim.cars[0].route), (450, Direction::South, Route::Straight));
    assert_eq!((sim.cars[1].x, sim.cars[1].direction, sim.cars[1].route), (400, Direction::North, Route::Straight));
    assert_eq!((sim.cars[2].y, sim.cars[2].direction), (350, Direction::East));
    sim.tick();
    assert_eq!((sim.cars[0].x, sim.cars[0].y), (450, 348));
    assert_eq!((sim.cars[1].x, sim.cars[1].y), (400, 352));
}

#[test]
fn safety_check_on_lane_and_cross_traffic() {
    let existing = vec![car_at(1, 100, 350, Direction::East, Route::Straight)];
    assert!(!Car::is_position_safe(31, 350, Direction::East, &existing));
    // Gap of 70, but the safety zone ahead still meets the vehicle.
    assert!(!Car::is_position_safe(30, 350, Direction::East, &existing));
    assert!(Car::is_position_safe(-20, 350, Direction::East, &existing));
    assert!(Car::is_position_safe(170, 350, Direction::East, &existing));
    assert!(!Car::is_position_safe(169, 350, Direction::East, &existing));
    // Opposite direction, overlapping box.
    assert!(!Car::is_position_safe(120, 340, Direction::West, &existing));
    // Cross traffic inside the safety zone ahead.
    assert!(!Car::is_position_safe(100, 290, Direction::North, &existing));
    assert!(Car::is_position_safe(100, 230, Direction::North, &existing));
    assert!(Car::is_position_safe(0, 350, Direction::East, &[]));
}

#[test]
fn rectangles_sharing_an_edge_do_not_intersect() {
    let a = Rect::new(0, 0, 50, 50);
    assert!(!a.has_intersection(Rect::new(50, 0, 50, 50)));
    assert!(a.has_intersection(Rect::new(49, 49, 50, 50)));
    assert!(!a.has_intersection(Rect { x: 10, y: 10, w: 0, h: 5 }));
    // A zero size is kept as one.
    assert_eq!(Rect::new(10, 10, 0, 5), Rect { x: 10, y: 10, w: 1, h: 5 });
    assert!(a.has_intersection(Rect::new(10, 10, 0, 5)));
    assert_eq!(
        Rect::new(i32::MAX, i32::MIN, u32::MAX, 7),
        Rect { x: 1_073_741_823, y: -1_073_741_824, w: 1_073_741_823, h: 7 }
    );
    assert_eq!(
        Car::get_safety_zone(10, 20, Direction::West, 70),
        Rect::new(-60, 20, 70, 50)
    );
    assert_eq!(
        Car::get_safety_zone(10, 20, Direction::North, 70),
        Rect::new(10, 70, 50, 70)
    );
}

#[test]
fn stop_lines_and_approach() {
    let lights = TrafficLightSystem::new();
    assert_eq!(lights.get_stop_line(Direction::East), Some((390, 350)));
    assert_eq!(lights.get_stop_line(Direction::West), Some((510, 300)));
    assert_eq!(lights.get_stop_line(Direction::North), Some((400, 290)));
    assert_eq!(lights.get_stop_line(Direction::South), Some((450, 410)));
    assert!(lights.is_approaching_stop_line(310, 350, Direction::East));
    assert!(!lights.is_approaching_stop_line(308, 350, Direction::East));
    assert!(!lights.is_approaching_stop_line(392, 350, Direction::East));
    assert!(lights.is_approaching_stop_line(540, 300, Direction::West));
    assert!(!lights.is_approaching_stop_line(542, 300, Direction::West));
}

#[test]
fn congestion_lengthens_green() {
    let mut lights = TrafficLightSystem::new();
    let cars = vec![
        car_at(1, 400, 0, Direction::North, Route::Straight),
        car_at(2, 400, 100, Direction::North, Route::Straight),
        car_at(3, 0, 350, Direction::East, Route::Straight),
    ];
    lights.adjust_for_congestion(&cars, 4);
    assert_eq!(lights.lights[0].duration_secs, 8);
    lights.adjust_for_congestion(&cars, 6);
    assert_eq!(lights.lights[0].duration_secs, 5);
    assert_eq!(lights.lights[1].duration_secs, 5);
}

#[test]
fn random_route_matches_color() {
    let mut seen = [false; 3];
    for _ in 0..300 {
        let c = Car::new(0, 350, Direction::East, &[]).unwrap();
        let (i, color) = match c.route {
            Route::Left => (0, Color::rgb(0, 255, 128)),
            Route::Right => (1, Color::rgb(255, 165, 0)),
            Route::Straight => (2, Color::rgb(0, 191, 255)),
        };
        assert_eq!(c.color, color);
        seen[i] = true;
    }
    assert_eq!(seen, [true, true, true]);
}

#[test]
fn random_direction_spawns_at_an_entry() {
    let mut seen = [false; 4];
    for _ in 0..300 {
        let c = Car::new_with_rand_dir(&[]).unwrap();
        assert_eq!((c.x, c.y), entry_position(c.direction));
        let i = match c.direction {
            Direction::North => 0,
            Direction::South => 1,
            Direction::East => 2,
            Direction::West => 3,
        };
        seen[i] = true;
    }
    assert_eq!(seen, [true, true, true, true]);
    let mut sim = Simulation::new();
    assert!(sim.spawn_random());
    let d = sim.cars[0].direction;
    assert_eq!(sim.capacity.get(d), 1);
}

#[test]
fn drawables_list_active_vehicles_then_lights() {
    let mut sim = Simulation::new();
    push_queued(&mut sim, car_at(1, 10, 350, Direction::East, Route::Straight));
    let mut gone = car_at(2, 1200, 300, Direction::West, Route::Straight);
    gone.active = false;
    sim.cars.push(gone);
    let d = sim.drawables();
    assert_eq!(d.len(), 5);
    assert_eq!((d[0].x, d[0].y, d[0].w, d[0].h), (10, 350, 50, 50));
    assert_eq!(d[1].color, Color::rgb(0, 255, 0));
    assert_eq!((d[1].x, d[1].y), (350, 200));
    assert_eq!(d[2].color, Color::rgb(255, 0, 0));
}

#[test]
fn position_data_and_rect() {
    let c = car_at(1, 10, 20, Direction::South, Route::Left);
    assert_eq!(c.get_position_data(), (10, 20, Direction::South));
    assert_eq!(c.rect(), Rect::new(10, 20, 50, 50));
}

#[test]
fn rolls_map_to_routes_and_directions() {
    assert_eq!(route_from_roll(1), Route::Left);
    assert_eq!(route_from_roll(2), Route::Right);
    assert_eq!(route_from_roll(3), Route::Straight);
    assert_eq!(direction_from_roll(1), Direction::East);
    assert_eq!(direction_from_roll(2), Direction::North);
    assert_eq!(direction_from_roll(3), Direction::South);
    assert_eq!(direction_from_roll(4), Direction::West);
}

#[test]
fn spawn_needs_room_for_the_safety_zone() {
    let mut sim = sim_with_green(Direction::East);
    assert!(sim.spawn(Direction::East));
    for _ in 0..35 {
        sim.tick();
    }
    assert_eq!(sim.cars[0].x, 70);
    assert!(!sim.spawn(Direction::East));
    for _ in 0..25 {
        sim.tick();
    }
    assert_eq!(sim.cars[0].x, 120);
    assert!(sim.spawn(Direction::East));
    assert_eq!(sim.cars[1].id, 2);
}

#[test]
fn light_poll_waits_for_clear_center() {
    let mut sim = Simulation::new();
    assert!(sim.spawn(Direction::South));
    assert_eq!(sim.poll_lights(1, 2, 2), 2);
    assert!(sim.lights.can_proceed(Direction::North));
    assert_eq!(sim.poll_lights(2, 2, 2), 4);
    assert!(sim.lights.can_proceed(Direction::South));
    let mut blocked = Simulation::new();
    let mut c = car_at(1, 430, 330, Direction::East, Route::Straight);
    c.committed = true;
    blocked.cars.push(c);
    blocked.capacity.increment(Direction::West);
    blocked.capacity.decrement(Direction::West);
    assert_eq!(blocked.poll_lights(10, 4, 2), 4);
}

#[test]
fn random_spawn_succeeds_when_all_entries_are_free() {
    for _ in 0..50 {
        let mut sim = Simulation::new();
        assert!(sim.spawn_random());
        assert_eq!(sim.cars.len(), 1);
    }
}
