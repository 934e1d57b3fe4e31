use vstd::prelude::*;
use rand::Rng;
use crate::capacity::CapacityTracker;
use crate::roads::{Color, Rect, rect_new, rects_overlap, CAR_SIZE, CENTER_X, CENTER_Y, WIDTH, HEIGHT};
use crate::traffic_light::{approaching, stop_line_of, TrafficLightSystem};

verus! {

/// Minimum longitudinal gap between two vehicles of one lane.
pub const SAFETY_DISTANCE: i32 = 70;

/// Distance covered by a vehicle in one tick.
pub const SPEED: i32 = 2;

/// Margin beyond the canvas after which a vehicle is retired.
pub const EXIT_MARGIN: i32 = 100;

/// Direction of travel. East and West move along x (increasing and
/// decreasing); North moves along increasing y, South along decreasing y.
#[derive(Debug, Clone, Copy, PartialEq, Eq, Structural)]
pub enum Direction {
    North,
    South,
    East,
    West,
}

/// What a vehicle does at the intersection.
#[derive(Debug, Clone, Copy, PartialEq, Eq, Structural)]
pub enum Route {
    Left,
    Right,
    Straight,
}

/// A vehicle. Its bounding box is the `CAR_SIZE` square at `(x, y)`.
#[derive(Debug, Clone, Copy)]
pub struct Car {
    /// One plus the number of vehicles created before it; lower ids have
    /// right of way within a lane.
    pub id: u64,
    pub x: i32,
    pub y: i32,
    pub direction: Direction,
    pub route: Route,
    pub color: Color,
    /// False once the vehicle has left the canvas.
    pub active: bool,
    pub speed: i32,
    /// Whether the vehicle was held during its last tick.
    pub stopped: bool,
    /// Whether the vehicle has passed its commit checkpoint.
    pub committed: bool,
}

/// Position of a vehicle along its direction of travel.
pub open spec fn progress(d: Direction, x: int, y: int) -> int {
    match d {
        Direction::East => x,
        Direction::West => -x,
        Direction::North => y,
        Direction::South => -y,
    }
}

/// The coordinate that identifies the lane of a vehicle travelling in `d`.
pub open spec fn lane(d: Direction, x: int, y: int) -> int {
    match d {
        Direction::East | Direction::West => y,
        Direction::North | Direction::South => x,
    }
}

/// Where a vehicle travelling in `d` enters the canvas.
pub open spec fn entry_of(d: Direction) -> (i32, i32) {
    match d {
        Direction::East => (0, CENTER_Y),
        Direction::North => ((CENTER_X - CAR_SIZE) as i32, 0),
        Direction::South => (CENTER_X, (HEIGHT - CAR_SIZE) as i32),
        Direction::West => ((WIDTH - CAR_SIZE) as i32, (CENTER_Y - CAR_SIZE) as i32),
    }
}

/// A vehicle stands on the approach lane of its direction, at or past its entry.
pub open spec fn on_approach_lane(c: Car) -> bool {
    let (ex, ey) = entry_of(c.direction);
    &&& lane(c.direction, c.x as int, c.y as int) == lane(c.direction, ex as int, ey as int)
    &&& progress(c.direction, c.x as int, c.y as int) >= progress(c.direction, ex as int, ey as int)
}

/// The entry coordinates of the lane that carries traffic in `d`.
pub fn entry_position(d: Direction) -> (r: (i32, i32))
    ensures
        r == entry_of(d),
{
    match d {
        Direction::East => (0, CENTER_Y),
        Direction::North => (CENTER_X - CAR_SIZE, 0),
        Direction::South => (CENTER_X, HEIGHT - CAR_SIZE),
        Direction::West => (WIDTH - CAR_SIZE, CENTER_Y - CAR_SIZE),
    }
}

/// The color that shows a vehicle's route.
pub open spec fn route_color(r: Route) -> Color {
    match r {
        Route::Left => Color { r: 0, g: 255, b: 128 },
        Route::Right => Color { r: 255, g: 165, b: 0 },
        Route::Straight => Color { r: 0, g: 191, b: 255 },
    }
}

/// The route picked by a roll of a three-sided die.
pub open spec fn route_of_roll(n: u32) -> Route {
    if n == 1 {
        Route::Left
    } else if n == 2 {
        Route::Right
    } else {
        Route::Straight
    }
}

/// The direction picked by a roll of a four-sided die.
pub open spec fn direction_of_roll(n: u32) -> Direction {
    if n == 1 {
        Direction::East
    } else if n == 2 {
        Direction::North
    } else if n == 3 {
        Direction::South
    } else {
        Direction::West
    }
}

/// The bounding box of a vehicle at `(x, y)`.
pub open spec fn box_at(x: i32, y: i32) -> Rect {
    rect_new(x, y, CAR_SIZE as u32, CAR_SIZE as u32)
}

/// The area `distance` units ahead of a vehicle at `(x, y)` moving in `d`.
pub open spec fn safety_zone_of(x: i32, y: i32, d: Direction, distance: i32) -> Rect {
    match d {
        Direction::East => rect_new((x + CAR_SIZE) as i32, y, distance as u32, CAR_SIZE as u32),
        Direction::West => rect_new((x - distance) as i32, y, distance as u32, CAR_SIZE as u32),
        Direction::North => rect_new(x, (y + CAR_SIZE) as i32, CAR_SIZE as u32, distance as u32),
        Direction::South => rect_new(x, (y - distance) as i32, CAR_SIZE as u32, distance as u32),
    }
}

/// Whether the existing vehicle `c` forbids a new vehicle at `(x, y)` moving
/// in `d`: it travels the same lane and direction less than the safety
/// distance away, or its box meets the new box or the safety zone ahead of it.
pub open spec fn conflicts(x: i32, y: i32, d: Direction, c: Car) -> bool {
    ||| (c.direction == d && lane(d, x as int, y as int) == lane(d, c.x as int, c.y as int) && -SAFETY_DISTANCE
        < progress(d, c.x as int, c.y as int) - progress(d, x as int, y as int) < SAFETY_DISTANCE)
    ||| rects_overlap(box_at(c.x, c.y), box_at(x, y))
    ||| rects_overlap(box_at(c.x, c.y), safety_zone_of(x, y, d, SAFETY_DISTANCE))
}

/// A new vehicle at `(x, y)` moving in `d` conflicts with none of `cars`.
pub open spec fn position_safe(x: i32, y: i32, d: Direction, cars: Seq<Car>) -> bool {
    forall|i: int| 0 <= i < cars.len() ==> !conflicts(x, y, d, #[trigger] cars[i])
}

/// A new vehicle would be safe at the entry of every direction.
pub open spec fn all_entries_safe(cars: Seq<Car>) -> bool {
    forall|d: Direction| #[trigger] position_safe(entry_of(d).0, entry_of(d).1, d, cars)
}

/// Positions that leave room for the safety zone without overflow.
pub open spec fn in_range(x: i32, y: i32) -> bool {
    -1_000_000_000 <= x <= 1_000_000_000 && -1_000_000_000 <= y <= 1_000_000_000
}

/// A vehicle created as the `(n + 1)`-th one of the registry.
pub open spec fn fresh_car(x: i32, y: i32, d: Direction, route: Route, n: nat) -> Car {
    Car {
        id: (n + 1) as u64,
        x,
        y,
        direction: d,
        route,
        color: route_color(route),
        active: true,
        speed: SPEED,
        stopped: false,
        committed: false,
    }
}

/// The leading edge of the vehicle has reached the intersection boundary
/// on its approach lane.
pub open spec fn past_checkpoint(c: Car) -> bool {
    match c.direction {
        Direction::East => c.x >= CENTER_X - 100,
        Direction::West => c.x <= CENTER_X + 50,
        Direction::North => c.y >= CENTER_Y - 100,
        Direction::South => c.y <= CENTER_Y + 50,
    }
}

/// The vehicle is close enough to its stop line to have to stop there.
pub open spec fn at_stop_line(c: Car) -> bool {
    let (sx, sy) = stop_line_of(c.direction);
    match c.direction {
        Direction::East => c.x + CAR_SIZE >= sx - 5,
        Direction::West => c.x <= sx + 5,
        Direction::North => c.y + CAR_SIZE >= sy - 5,
        Direction::South => c.y <= sy + 5,
    }
}

/// A red light holds the vehicle at its stop line.
pub open spec fn held_by_light(c: Car, green: Direction) -> bool {
    approaching(c.x, c.y, c.direction) && c.direction != green && at_stop_line(c)
}

/// Vehicle `o` has right of way over `c` and is so close ahead of it in
/// its lane that `c`, advancing, would come nearer than the safety distance.
pub open spec fn blocks(o: Car, c: Car) -> bool {
    let gap = progress(c.direction, o.x as int, o.y as int) - progress(
        c.direction,
        c.x as int,
        c.y as int,
    );
    &&& o.active
    &&& o.id < c.id
    &&& o.direction == c.direction
    &&& lane(c.direction, o.x as int, o.y as int) == lane(c.direction, c.x as int, c.y as int)
    &&& 0 <= gap < SAFETY_DISTANCE + c.speed
}

/// No vehicle of the snapshot blocks `c`.
pub open spec fn may_move(c: Car, snapshot: Seq<Car>) -> bool {
    forall|k: int| 0 <= k < snapshot.len() ==> !blocks(#[trigger] snapshot[k], c)
}

/// The direction after a left turn.
pub open spec fn left_of(d: Direction) -> Direction {
    match d {
        Direction::East => Direction::South,
        Direction::West => Direction::North,
        Direction::North => Direction::East,
        Direction::South => Direction::West,
    }
}

/// The direction after a right turn.
pub open spec fn right_of(d: Direction) -> Direction {
    match d {
        Direction::East => Direction::North,
        Direction::West => Direction::South,
        Direction::North => Direction::West,
        Direction::South => Direction::East,
    }
}

/// The vehicle has reached the far boundary of the intersection.
pub open spec fn reached_far(d: Direction, x: int, y: int) -> bool {
    match d {
        Direction::East => x >= CENTER_X,
        Direction::West => x + CAR_SIZE <= CENTER_X,
        Direction::North => y >= CENTER_Y,
        Direction::South => y + CAR_SIZE <= CENTER_Y,
    }
}

/// The vehicle has reached the near boundary of the intersection.
pub open spec fn reached_near(d: Direction, x: int, y: int) -> bool {
    match d {
        Direction::East => x >= CENTER_X - CAR_SIZE,
        Direction::West => x <= CENTER_X,
        Direction::North => y >= CENTER_Y - CAR_SIZE,
        Direction::South => y <= CENTER_Y,
    }
}

/// The vehicle displaced by its speed along its direction.
pub open spec fn advanced(c: Car) -> Car {
    match c.direction {
        Direction::East => Car { x: (c.x + c.speed) as i32, ..c },
        Direction::West => Car { x: (c.x - c.speed) as i32, ..c },
        Direction::North => Car { y: (c.y + c.speed) as i32, ..c },
        Direction::South => Car { y: (c.y - c.speed) as i32, ..c },
    }
}

/// A turning vehicle changes direction once it reaches its turn point.
pub open spec fn turned(c: Car) -> Car {
    if c.route == Route::Left && reached_far(c.direction, c.x as int, c.y as int) {
        Car { direction: left_of(c.direction), route: Route::Straight, ..c }
    } else if c.route == Route::Right && reached_near(c.direction, c.x as int, c.y as int) {
        Car { direction: right_of(c.direction), route: Route::Straight, ..c }
    } else {
        c
    }
}

/// The position lies beyond the canvas by more than the exit margin.
pub open spec fn off_canvas(x: i32, y: i32) -> bool {
    x < -EXIT_MARGIN || x > WIDTH + EXIT_MARGIN || y < -EXIT_MARGIN || y > HEIGHT + EXIT_MARGIN
}

/// The vehicle commits during this tick.
pub open spec fn commits_now(c: Car) -> bool {
    c.active && !c.committed && past_checkpoint(c)
}

/// One tick of a vehicle, with `green` the direction that has right of way
/// and `snapshot` every vehicle as it stood when the tick began.
pub open spec fn stepped(c: Car, green: Direction, snapshot: Seq<Car>) -> Car {
    if !c.active {
        c
    } else {
        let committed = c.committed || past_checkpoint(c);
        if !committed && (held_by_light(c, green) || !may_move(c, snapshot)) {
            Car { stopped: true, committed, ..c }
        } else {
            let m = turned(advanced(Car { stopped: false, committed, ..c }));
            Car { active: !off_canvas(m.x, m.y), ..m }
        }
    }
}

/// The vehicle after `n` ticks, tick `i` seeing `greens(i)` as the
/// direction with right of way and `snapshots(i)` as the other vehicles.
pub open spec fn run(
    c: Car,
    n: nat,
    greens: spec_fn(nat) -> Direction,
    snapshots: spec_fn(nat) -> Seq<Car>,
) -> Car
    decreases n,
{
    if n == 0 {
        c
    } else {
        let prev = run(c, (n - 1) as nat, greens, snapshots);
        stepped(prev, greens((n - 1) as nat), snapshots((n - 1) as nat))
    }
}

/// Free flow: an active East-bound vehicle going straight, which has the
/// green light and room ahead at every tick, is `n * speed` further east
/// after `n` ticks, on the same lane and still active, as long as that
/// position is within the exit margin.
pub proof fn lemma_straight_run(
    c: Car,
    n: nat,
    greens: spec_fn(nat) -> Direction,
    snapshots: spec_fn(nat) -> Seq<Car>,
)
    requires
        c.active,
        c.direction == Direction::East,
        c.route == Route::Straight,
        0 <= c.speed,
        -EXIT_MARGIN <= c.y <= HEIGHT + EXIT_MARGIN,
        -EXIT_MARGIN <= c.x,
        c.x + n * c.speed <= WIDTH + EXIT_MARGIN,
        forall|i: nat|
            i < n ==> greens(i) == Direction::East && may_move(
                #[trigger] run(c, i, greens, snapshots),
                snapshots(i),
            ),
    ensures
        ({
            let r = run(c, n, greens, snapshots);
            &&& r.x == c.x + n * c.speed
            &&& r.y == c.y
            &&& r.direction == Direction::East
            &&& r.route == Route::Straight
            &&& r.speed == c.speed
            &&& r.active
        }),
    decreases n,
{
    if n > 0 {
        let m = (n - 1) as nat;
        assert(c.x + m * c.speed <= c.x + n * c.speed) by (nonlinear_arith)
            requires
                0 <= c.speed,
                m + 1 == n,
        ;
        assert(m * c.speed + c.speed == n * c.speed) by (nonlinear_arith)
            requires
                m + 1 == n,
        ;
        assert(0 <= n * c.speed) by (nonlinear_arith)
            requires
                0 <= c.speed,
        ;
        lemma_straight_run(c, m, greens, snapshots);
        let prev = run(c, m, greens, snapshots);
        assert(greens(m) == Direction::East && may_move(prev, snapshots(m)));
        assert(!held_by_light(prev, greens(m)));
        assert(run(c, n, greens, snapshots) == stepped(prev, greens(m), snapshots(m)));
    } else {
        assert(n * c.speed == 0) by (nonlinear_arith)
            requires
                n == 0,
        ;
    }
}

/// An active East-bound vehicle going straight that advances past the exit
/// margin is retired.
pub proof fn lemma_straight_exit(c: Car, green: Direction, snapshot: Seq<Car>)
    requires
        c.active,
        c.direction == Direction::East,
        c.route == Route::Straight,
        c.committed || (green == Direction::East && may_move(c, snapshot)),
        c.x + c.speed > WIDTH + EXIT_MARGIN,
        c.x + c.speed <= i32::MAX,
    ensures
        !stepped(c, green, snapshot).active,
        stepped(c, green, snapshot).x == c.x + c.speed,
{
}

/// Speed and position leave room for one more tick without overflow.
pub open spec fn movable(c: Car) -> bool {
    c.active ==> in_range(c.x, c.y) && 0 <= c.speed <= 1_000_000
}

/// Relies on rand's `thread_rng().gen_range` over an inclusive range: the
/// result lies in that range. It panics on an empty range, which `requires`
/// leaves out.
#[verifier::external_body]
fn roll(lo: u32, hi: u32) -> (r: u32)
    requires
        lo <= hi,
    ensures
        lo <= r <= hi,
{
    rand::thread_rng().gen_range(lo..=hi)
}

/// The route picked by a roll of a three-sided die.
pub fn route_from_roll(n: u32) -> (r: Route)
    ensures
        r == route_of_roll(n),
{
    match n {
        1 => Route::Left,
        2 => Route::Right,
        _ => Route::Straight,
    }
}

/// The direction picked by a roll of a four-sided die.
pub fn direction_from_roll(n: u32) -> (d: Direction)
    ensures
        d == direction_of_roll(n),
{
    match n {
        1 => Direction::East,
        2 => Direction::North,
        3 => Direction::South,
        _ => Direction::West,
    }
}

impl Car {
    /// Whether a new vehicle may be created at `(x, y)` moving in `direction`.
    pub fn is_position_safe(x: i32, y: i32, direction: Direction, existing_cars: &[Car]) -> (r: bool)
        requires
            in_range(x, y),
        ensures
            r == position_safe(x, y, direction, existing_cars@),
    {
        let safety_distance: i32 = SAFETY_DISTANCE;
        let new_car_rect = Rect::new(x, y, CAR_SIZE as u32, CAR_SIZE as u32);
        let safety_zone = Car::get_safety_zone(x, y, direction, safety_distance);
        let mut i: usize = 0;
        while i < existing_cars.len()
            invariant
                0 <= i <= existing_cars@.len(),
                new_car_rect == box_at(x, y),
                safety_zone == safety_zone_of(x, y, direction, safety_distance),
                safety_distance == SAFETY_DISTANCE,
                forall|k: int| 0 <= k < i ==> !conflicts(x, y, direction, #[trigger] existing_cars@[k]),
            decreases existing_cars@.len() - i,
        {
            let car = existing_cars[i];
            let same_lane = match direction {
                Direction::East | Direction::West => car.y == y,
                Direction::North | Direction::South => car.x == x,
            };
            if car.direction == direction && same_lane {
                let gap: i64 = match direction {
                    Direction::East => car.x as i64 - x as i64,
                    Direction::West => x as i64 - car.x as i64,
                    Direction::North => car.y as i64 - y as i64,
                    Direction::South => y as i64 - car.y as i64,
                };
                if -(safety_distance as i64) < gap && gap < safety_distance as i64 {
                    return false;
                }
            }
            let car_rect = Rect::new(car.x, car.y, CAR_SIZE as u32, CAR_SIZE as u32);
            if car_rect.has_intersection(new_car_rect) {
                return false;
            }
            if car_rect.has_intersection(safety_zone) {
                return false;
            }
            i = i + 1;
        }
        true
    }

    /// The rectangle `distance` units ahead of a vehicle at `(x, y)` moving in `direction`.
    pub fn get_safety_zone(x: i32, y: i32, direction: Direction, distance: i32) -> (r: Rect)
        requires
            in_range(x, y),
            0 <= distance <= 1_000_000,
        ensures
            r == safety_zone_of(x, y, direction, distance),
    {
        match direction {
            Direction::East => Rect::new(x + CAR_SIZE, y, distance as u32, CAR_SIZE as u32),
            Direction::West => Rect::new(x - distance, y, distance as u32, CAR_SIZE as u32),
            Direction::North => Rect::new(x, y + CAR_SIZE, CAR_SIZE as u32, distance as u32),
            Direction::South => Rect::new(x, y - distance, CAR_SIZE as u32, distance as u32),
        }
    }

    /// Creates a vehicle with the given route at `(x, y)` moving in
    /// `direction`, unless that position conflicts with an existing vehicle.
    pub fn new_with_route(
        x: i32,
        y: i32,
        direction: Direction,
        route: Route,
        existing_cars: &[Car],
    ) -> (r: Option<Car>)
        requires
            in_range(x, y),
            existing_cars@.len() < u64::MAX,
        ensures
            r == if position_safe(x, y, direction, existing_cars@) {
                Some(fresh_car(x, y, direction, route, existing_cars@.len()))
            } else {
                None::<Car>
            },
    {
        if !Car::is_position_safe(x, y, direction, existing_cars) {
            return None;
        }
        let color = match route {
            Route::Left => Color::rgb(0, 255, 128),
            Route::Right => Color::rgb(255, 165, 0),
            Route::Straight => Color::rgb(0, 191, 255),
        };
        Some(
            Car {
                id: existing_cars.len() as u64 + 1,
                x,
                y,
                direction,
                route,
                color,
                active: true,
                speed: SPEED,
                stopped: false,
                committed: false,
            },
        )
    }

    /// Creates a vehicle with a random route at `(x, y)` moving in
    /// `direction`, unless that position conflicts with an existing vehicle.
    pub fn new(x: i32, y: i32, direction: Direction, existing_cars: &[Car]) -> (r: Option<Car>)
        requires
            in_range(x, y),
            existing_cars@.len() < u64::MAX,
        ensures
            r.is_some() == position_safe(x, y, direction, existing_cars@),
            r matches Some(c) ==> {
                &&& c == fresh_car(x, y, direction, c.route, existing_cars@.len())
                &&& exists|n: u32| 1 <= n <= 3 && #[trigger] route_of_roll(n) == c.route
            },
    {
        if !Car::is_position_safe(x, y, direction, existing_cars) {
            return None;
        }
        let n = roll(1, 3);
        let route = route_from_roll(n);
        Car::new_with_route(x, y, direction, route, existing_cars)
    }

    /// Picks up to ten random directions and creates a vehicle at the entry
    /// of the first one whose entry position is safe. Where every entry is
    /// safe, the first pick succeeds.
    pub fn new_with_rand_dir(existing_cars: &[Car]) -> (r: Option<Car>)
        requires
            existing_cars@.len() < u64::MAX,
        ensures
            all_entries_safe(existing_cars@) ==> r.is_some(),
            r matches Some(c) ==> {
                &&& (c.x, c.y) == entry_of(c.direction)
                &&& position_safe(c.x, c.y, c.direction, existing_cars@)
                &&& c == fresh_car(c.x, c.y, c.direction, c.route, existing_cars@.len())
                &&& exists|n: u32| 1 <= n <= 4 && #[trigger] direction_of_roll(n) == c.direction
            },
    {
        let mut attempts: u32 = 0;
        while attempts < 10
            invariant
                0 <= attempts <= 10,
                existing_cars@.len() < u64::MAX,
                all_entries_safe(existing_cars@) ==> attempts == 0,
            decreases 10 - attempts,
        {
            let n = roll(1, 4);
            let direction = direction_from_roll(n);
            let (spawn_x, spawn_y) = entry_position(direction);
            if Car::is_position_safe(spawn_x, spawn_y, direction, existing_cars) {
                let r = Car::new(spawn_x, spawn_y, direction, existing_cars);
                proof {
                    if let Some(c) = r {
                        assert(direction_of_roll(n) == c.direction);
                    }
                }
                return r;
            }
            proof {
                if all_entries_safe(existing_cars@) {
                    assert(position_safe(entry_of(direction).0, entry_of(direction).1, direction, existing_cars@));
                }
            }
            attempts = attempts + 1;
        }
        None
    }

    /// Whether a red light holds this vehicle at its stop line.
    fn should_stop_at_light(&self, traffic_lights: &TrafficLightSystem) -> (r: bool)
        requires
            traffic_lights.wf(),
        ensures
            r == at_stop_line(*self),
    {
        match traffic_lights.get_stop_line(self.direction) {
            Some((stop_x, stop_y)) => {
                let x: i64 = self.x as i64;
                let y: i64 = self.y as i64;
                let sx: i64 = stop_x as i64;
                let sy: i64 = stop_y as i64;
                match self.direction {
                    Direction::East => x + CAR_SIZE as i64 >= sx - 5,
                    Direction::West => x <= sx + 5,
                    Direction::North => y + CAR_SIZE as i64 >= sy - 5,
                    Direction::South => y <= sy + 5,
                }
            },
            None => false,
        }
    }

    /// Whether this vehicle may advance: no lower-id vehicle of its lane and
    /// direction is ahead of it closer than the safety distance once it has
    /// advanced.
    pub fn is_can_move(&self, others: &[Car]) -> (r: bool)
        ensures
            r == may_move(*self, others@),
    {
        let mut i: usize = 0;
        while i < others.len()
            invariant
                0 <= i <= others@.len(),
                forall|k: int| 0 <= k < i ==> !blocks(#[trigger] others@[k], *self),
            decreases others@.len() - i,
        {
            let o = others[i];
            if o.active && o.id < self.id && o.direction == self.direction {
                let (same_lane, gap) = match self.direction {
                    Direction::East => (o.y == self.y, o.x as i64 - self.x as i64),
                    Direction::West => (o.y == self.y, self.x as i64 - o.x as i64),
                    Direction::North => (o.x == self.x, o.y as i64 - self.y as i64),
                    Direction::South => (o.x == self.x, self.y as i64 - o.y as i64),
                };
                if same_lane && 0 <= gap && gap < SAFETY_DISTANCE as i64 + self.speed as i64 {
                    return false;
                }
            }
            i = i + 1;
        }
        true
    }

    /// One tick of this vehicle against the snapshot `others` of all vehicles
    /// taken when the tick began. A vehicle that reaches its checkpoint
    /// commits and takes itself off the count of its direction; until then
    /// a red light at the stop line and the vehicle ahead can hold it.
    pub fn update_position(
        &mut self,
        traffic_lights: &TrafficLightSystem,
        others: &[Car],
        capacity: &mut CapacityTracker,
    )
        requires
            traffic_lights.wf(),
            movable(*old(self)),
        ensures
            *final(self) == stepped(*old(self), traffic_lights.green(), others@),
            *final(capacity) == if commits_now(*old(self)) {
                old(capacity).with_count(
                    old(self).direction,
                    if old(capacity).count(old(self).direction) > 0 {
                        (old(capacity).count(old(self).direction) - 1) as u32
                    } else {
                        0
                    },
                )
            } else {
                *old(capacity)
            },
    {
        if !self.active {
            return;
        }
        let checkpoint = match self.direction {
            Direction::East => self.x >= CENTER_X - 100,
            Direction::West => self.x <= CENTER_X + 50,
            Direction::North => self.y >= CENTER_Y - 100,
            Direction::South => self.y <= CENTER_Y + 50,
        };
        if !self.committed && checkpoint {
            self.committed = true;
            capacity.decrement(self.direction);
        }
        if !self.committed {
            if traffic_lights.is_approaching_stop_line(self.x, self.y, self.direction)
                && !traffic_lights.can_proceed(self.direction) && self.should_stop_at_light(
                traffic_lights,
            ) {
                self.stopped = true;
                return;
            }
            if !self.is_can_move(others) {
                self.stopped = true;
                return;
            }
        }
        self.stopped = false;
        match self.direction {
            Direction::East => {
                self.x = self.x + self.speed;
                if self.route == Route::Left && self.x >= CENTER_X {
                    self.direction = Direction::South;
                    self.route = Route::Straight;
                } else if self.route == Route::Right && self.x >= CENTER_X - CAR_SIZE {
                    self.direction = Direction::North;
                    self.route = Route::Straight;
                }
            },
            Direction::West => {
                self.x = self.x - self.speed;
                if self.route == Route::Left && self.x + CAR_SIZE <= CENTER_X {
                    self.direction = Direction::North;
                    self.route = Route::Straight;
                } else if self.route == Route::Right && self.x <= CENTER_X {
                    self.direction = Direction::South;
                    self.route = Route::Straight;
                }
            },
            Direction::North => {
                self.y = self.y + self.speed;
                if self.route == Route::Left && self.y >= CENTER_Y {
                    self.direction = Direction::East;
                    self.route = Route::Straight;
                } else if self.route == Route::Right && self.y >= CENTER_Y - CAR_SIZE {
                    self.direction = Direction::West;
                    self.route = Route::Straight;
                }
            },
            Direction::South => {
                self.y = self.y - self.speed;
                if self.route == Route::Left && self.y + CAR_SIZE <= CENTER_Y {
                    self.direction = Direction::West;
                    self.route = Route::Straight;
                } else if self.route == Route::Right && self.y <= CENTER_Y {
                    self.direction = Direction::East;
                    self.route = Route::Straight;
                }
            },
        }
        if self.x < -EXIT_MARGIN || self.x > WIDTH + EXIT_MARGIN || self.y < -EXIT_MARGIN
            || self.y > HEIGHT + EXIT_MARGIN {
            self.active = false;
        }
    }

    /// The bounding box of this vehicle.
    pub fn rect(&self) -> (r: Rect)
        ensures
            r == box_at(self.x, self.y),
    {
        Rect::new(self.x, self.y, CAR_SIZE as u32, CAR_SIZE as u32)
    }

    /// Position and direction of this vehicle.
    pub fn get_position_data(&self) -> (r: (i32, i32, Direction))
        ensures
            r == (self.x, self.y, self.direction),
    {
        (self.x, self.y, self.direction)
    }
}

} // verus!
