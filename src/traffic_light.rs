use vstd::prelude::*;
use crate::capacity::CapacityTracker;
use crate::car::{Car, Direction};
use crate::roads::{CAR_SIZE, CENTER_X, CENTER_Y};

verus! {

/// Green duration of the active light in ordinary traffic, in seconds.
pub const BASE_DURATION_SECS: u64 = 5;

/// Green duration of the active light when its lane is congested, in seconds.
pub const CONGESTED_DURATION_SECS: u64 = 8;

#[derive(Debug, Clone, Copy, PartialEq, Eq, Structural)]
pub enum LightState {
    Red,
    Green,
}

/// The light that governs one approach direction.
#[derive(Debug, Clone, Copy)]
pub struct TrafficLight {
    /// 1 to 4, in the order North, South, East, West.
    pub id: u32,
    pub state: LightState,
    /// Where the light is drawn.
    pub position: (i32, i32),
    pub direction: Direction,
    /// How long the light stays green once chosen, in seconds.
    pub duration_secs: u64,
    /// Where vehicles of `direction` stop while the light is red.
    pub stop_line: (i32, i32),
}

/// The four approach lights; exactly one of them is green.
#[derive(Debug)]
pub struct TrafficLightSystem {
    pub lights: Vec<TrafficLight>,
    /// Index of the green light.
    pub current_light_index: usize,
    pub cycle_duration_secs: u64,
}

/// Index of the light of `d` in `TrafficLightSystem::lights`.
pub open spec fn index_of(d: Direction) -> int {
    match d {
        Direction::North => 0,
        Direction::South => 1,
        Direction::East => 2,
        Direction::West => 3,
    }
}

/// The direction whose light sits at index `i`.
pub open spec fn direction_at(i: int) -> Direction {
    if i == 0 {
        Direction::North
    } else if i == 1 {
        Direction::South
    } else if i == 2 {
        Direction::East
    } else {
        Direction::West
    }
}

/// The stop line of the approach lane of `d`.
pub open spec fn stop_line_of(d: Direction) -> (i32, i32) {
    match d {
        Direction::North => ((CENTER_X - 50) as i32, (CENTER_Y - 60) as i32),
        Direction::South => (CENTER_X, (CENTER_Y + 60) as i32),
        Direction::East => ((CENTER_X - 60) as i32, CENTER_Y),
        Direction::West => ((CENTER_X + 60) as i32, (CENTER_Y - 50) as i32),
    }
}

/// Where the light of `d` is drawn.
pub open spec fn light_position_of(d: Direction) -> (i32, i32) {
    match d {
        Direction::North => ((CENTER_X - 100) as i32, (CENTER_Y - 150) as i32),
        Direction::South => ((CENTER_X + 50) as i32, (CENTER_Y + 150) as i32),
        Direction::East => ((CENTER_X - 150) as i32, (CENTER_Y + 50) as i32),
        Direction::West => ((CENTER_X + 150) as i32, (CENTER_Y - 50) as i32),
    }
}

/// The direction given right of way: the one with the largest count, ties
/// going to the first of North, East, West, South.
pub open spec fn selected_direction(c: CapacityTracker) -> Direction {
    if c.north >= c.east && c.north >= c.west && c.north >= c.south {
        Direction::North
    } else if c.east >= c.west && c.east >= c.south {
        Direction::East
    } else if c.west >= c.south {
        Direction::West
    } else {
        Direction::South
    }
}

/// The vehicle's bounding box meets the box around the intersection center.
pub open spec fn in_center(c: Car) -> bool {
    &&& c.x + CAR_SIZE > CENTER_X - 50 && c.x < CENTER_X + 50
    &&& c.y + CAR_SIZE > CENTER_Y - 50 && c.y < CENTER_Y + 50
}

/// No vehicle of `cars` occupies the intersection center.
pub open spec fn center_empty(cars: Seq<Car>) -> bool {
    forall|i: int| 0 <= i < cars.len() ==> !in_center(#[trigger] cars[i])
}

/// A vehicle at `(x, y)` moving in `d` is within reach of its stop line.
pub open spec fn approaching(x: i32, y: i32, d: Direction) -> bool {
    let (sx, sy) = stop_line_of(d);
    match d {
        Direction::East => x <= sx && x + CAR_SIZE >= sx - 30,
        Direction::West => x >= sx && x <= sx + 30,
        Direction::North => y <= sy && y + CAR_SIZE >= sy - 30,
        Direction::South => y >= sy && y <= sy + 30,
    }
}

/// The number of vehicles of `cars` moving in `d`.
pub open spec fn count_in(cars: Seq<Car>, d: Direction) -> nat
    decreases cars.len(),
{
    if cars.len() == 0 {
        0
    } else {
        count_in(cars.drop_last(), d) + if cars.last().direction == d { 1nat } else { 0nat }
    }
}

/// The direction that gets the green light: the one with the largest
/// count, ties going to the first of North, East, West, South.
pub fn select_green(capacity: &CapacityTracker) -> (r: Direction)
    ensures
        r == selected_direction(*capacity),
{
    let n = capacity.north;
    let s = capacity.south;
    let e = capacity.east;
    let w = capacity.west;
    if n >= e && n >= w && n >= s {
        Direction::North
    } else if e >= w && e >= s {
        Direction::East
    } else if w >= s {
        Direction::West
    } else {
        Direction::South
    }
}

/// Whether the intersection center holds no vehicle.
pub fn is_empty_center(cars: &[Car]) -> (r: bool)
    ensures
        r == center_empty(cars@),
{
    let left: i32 = CENTER_X - 50;
    let right: i32 = CENTER_X + 50;
    let top: i32 = CENTER_Y - 50;
    let bottom: i32 = CENTER_Y + 50;
    let mut i: usize = 0;
    while i < cars.len()
        invariant
            0 <= i <= cars@.len(),
            left == CENTER_X - 50,
            right == CENTER_X + 50,
            top == CENTER_Y - 50,
            bottom == CENTER_Y + 50,
            forall|k: int| 0 <= k < i ==> !in_center(#[trigger] cars@[k]),
        decreases cars@.len() - i,
    {
        let car = cars[i];
        if car.x as i64 + CAR_SIZE as i64 > left as i64 && car.x < right && car.y as i64
            + CAR_SIZE as i64 > top as i64 && car.y < bottom {
            return false;
        }
        i = i + 1;
    }
    true
}

fn light_for(d: Direction) -> (r: TrafficLight)
    ensures
        r.id == index_of(d) + 1,
        r.state == LightState::Red,
        r.position == light_position_of(d),
        r.direction == d,
        r.duration_secs == BASE_DURATION_SECS,
        r.stop_line == stop_line_of(d),
{
    let (position, stop_line, id) = match d {
        Direction::North => ((CENTER_X - 100, CENTER_Y - 150), (CENTER_X - 50, CENTER_Y - 60), 1),
        Direction::South => ((CENTER_X + 50, CENTER_Y + 150), (CENTER_X, CENTER_Y + 60), 2),
        Direction::East => ((CENTER_X - 150, CENTER_Y + 50), (CENTER_X - 60, CENTER_Y), 3),
        Direction::West => ((CENTER_X + 150, CENTER_Y - 50), (CENTER_X + 60, CENTER_Y - 50), 4),
    };
    TrafficLight {
        id,
        state: LightState::Red,
        position,
        direction: d,
        duration_secs: BASE_DURATION_SECS,
        stop_line,
    }
}

impl TrafficLightSystem {
    /// The lights are in place, one per direction, and only the one at
    /// `current_light_index` is green.
    pub open spec fn wf(&self) -> bool {
        &&& self.lights@.len() == 4
        &&& self.current_light_index < 4
        &&& forall|i: int|
            0 <= i < 4 ==> {
                &&& (#[trigger] self.lights@[i]).direction == direction_at(i)
                &&& self.lights@[i].id == i + 1
                &&& self.lights@[i].stop_line == stop_line_of(direction_at(i))
                &&& self.lights@[i].position == light_position_of(direction_at(i))
                &&& (self.lights@[i].state == LightState::Green <==> i
                    == self.current_light_index)
            }
    }

    /// The direction that has right of way.
    pub open spec fn green(&self) -> Direction {
        direction_at(self.current_light_index as int)
    }

    /// Four lights, North's green.
    pub fn new() -> (r: Self)
        ensures
            r.wf(),
            r.green() == Direction::North,
            r.cycle_duration_secs == BASE_DURATION_SECS,
            forall|i: int| 0 <= i < 4 ==> (#[trigger] r.lights@[i]).duration_secs == BASE_DURATION_SECS,
    {
        let mut lights: Vec<TrafficLight> = Vec::new();
        lights.push(light_for(Direction::North));
        lights.push(light_for(Direction::South));
        lights.push(light_for(Direction::East));
        lights.push(light_for(Direction::West));
        let mut first = lights[0];
        first.state = LightState::Green;
        lights.set(0, first);
        TrafficLightSystem {
            lights,
            current_light_index: 0,
            cycle_duration_secs: BASE_DURATION_SECS,
        }
    }
    /// At most one light is green: two green lights are the same light.
    pub proof fn lemma_single_green(&self, i: int, j: int)
        requires
            self.wf(),
            0 <= i < self.lights@.len(),
            0 <= j < self.lights@.len(),
            self.lights@[i].state == LightState::Green,
            self.lights@[j].state == LightState::Green,
        ensures
            i == j,
            i == index_of(self.green()),
    {
    }

    fn set_green(&mut self, d: Direction)
        requires
            old(self).wf(),
        ensures
            final(self).wf(),
            final(self).green() == d,
            final(self).cycle_duration_secs == old(self).cycle_duration_secs,
            forall|i: int|
                0 <= i < 4 ==> (#[trigger] final(self).lights@[i]).duration_secs
                    == old(self).lights@[i].duration_secs,
    {
        let target: usize = match d {
            Direction::North => 0,
            Direction::South => 1,
            Direction::East => 2,
            Direction::West => 3,
        };
        let ghost start = self.lights@;
        let ghost cycle = self.cycle_duration_secs;
        let mut i: usize = 0;
        while i < 4
            invariant
                0 <= i <= 4,
                start.len() == 4,
                self.cycle_duration_secs == cycle,
                target == index_of(d),
                self.lights@.len() == 4,
                forall|k: int|
                    0 <= k < 4 ==> {
                        &&& (#[trigger] self.lights@[k]).direction == start[k].direction
                        &&& self.lights@[k].id == start[k].id
                        &&& self.lights@[k].stop_line == start[k].stop_line
                        &&& self.lights@[k].position == start[k].position
                        &&& self.lights@[k].duration_secs == start[k].duration_secs
                    },
                forall|k: int|
                    0 <= k < i ==> ((#[trigger] self.lights@[k]).state == LightState::Green <==> k
                        == target),
            decreases 4 - i,
        {
            let mut l = self.lights[i];
            l.state = if i == target { LightState::Green } else { LightState::Red };
            self.lights.set(i, l);
            i = i + 1;
        }
        self.current_light_index = target;
    }

    /// Gives right of way to the direction with the most queued vehicles
    /// (ties: North, East, West, South), unless a vehicle occupies the
    /// intersection center, in which case nothing changes.
    pub fn update(&mut self, capacity: &CapacityTracker, cars: &[Car])
        requires
            old(self).wf(),
        ensures
            final(self).wf(),
            center_empty(cars@) ==> final(self).green() == selected_direction(*capacity),
            !center_empty(cars@) ==> *final(self) == *old(self),
            final(self).cycle_duration_secs == old(self).cycle_duration_secs,
            forall|i: int|
                0 <= i < 4 ==> (#[trigger] final(self).lights@[i]).duration_secs
                    == old(self).lights@[i].duration_secs,
    {
        if is_empty_center(cars) {
            let d = select_green(capacity);
            self.set_green(d);
        }
    }

    /// Whether vehicles moving in `direction` have a green light.
    pub fn can_proceed(&self, direction: Direction) -> (r: bool)
        requires
            self.wf(),
        ensures
            r == (direction == self.green()),
    {
        let mut i: usize = 0;
        while i < self.lights.len()
            invariant
                self.wf(),
                0 <= i <= 4,
                forall|k: int| 0 <= k < i ==> (#[trigger] self.lights@[k]).direction != direction,
            decreases 4 - i,
        {
            if self.lights[i].direction == direction {
                return self.lights[i].state == LightState::Green;
            }
            i = i + 1;
        }
        assert(self.lights@[index_of(direction)].direction == direction);
        false
    }

    /// The stop line of the approach lane of `direction`.
    pub fn get_stop_line(&self, direction: Direction) -> (r: Option<(i32, i32)>)
        requires
            self.wf(),
        ensures
            r == Some(stop_line_of(direction)),
    {
        let mut i: usize = 0;
        while i < self.lights.len()
            invariant
                self.wf(),
                0 <= i <= 4,
                forall|k: int| 0 <= k < i ==> (#[trigger] self.lights@[k]).direction != direction,
            decreases 4 - i,
        {
            if self.lights[i].direction == direction {
                return Some(self.lights[i].stop_line);
            }
            i = i + 1;
        }
        assert(self.lights@[index_of(direction)].direction == direction);
        None
    }

    /// Whether a vehicle at `(car_x, car_y)` moving in `direction` is within
    /// reach of its stop line.
    pub fn is_approaching_stop_line(&self, car_x: i32, car_y: i32, direction: Direction) -> (r: bool)
        requires
            self.wf(),
        ensures
            r == approaching(car_x, car_y, direction),
    {
        match self.get_stop_line(direction) {
            Some((stop_x, stop_y)) => {
                let x: i64 = car_x as i64;
                let y: i64 = car_y as i64;
                let sx: i64 = stop_x as i64;
                let sy: i64 = stop_y as i64;
                match direction {
                    Direction::East => x <= sx && x + CAR_SIZE as i64 >= sx - 30,
                    Direction::West => x >= sx && x <= sx + 30,
                    Direction::North => y <= sy && y + CAR_SIZE as i64 >= sy - 30,
                    Direction::South => y >= sy && y <= sy + 30,
                }
            },
            None => false,
        }
    }

    /// Lengthens the green of the current light when at least half of
    /// `lane_capacity` vehicles travel in its direction.
    pub fn adjust_for_congestion(&mut self, cars: &[Car], lane_capacity: usize)
        requires
            old(self).wf(),
        ensures
            final(self).wf(),
            final(self).current_light_index == old(self).current_light_index,
            final(self).lights@ == old(self).lights@.update(
                old(self).current_light_index as int,
                TrafficLight {
                    duration_secs: if count_in(cars@, old(self).green()) >= lane_capacity as int
                        / 2 {
                        CONGESTED_DURATION_SECS
                    } else {
                        BASE_DURATION_SECS
                    },
                    ..old(self).lights@[old(self).current_light_index as int]
                },
            ),
            final(self).cycle_duration_secs == old(self).cycle_duration_secs,
    {
        let current_direction = self.lights[self.current_light_index].direction;
        let mut cars_in_lane: usize = 0;
        let mut i: usize = 0;
        while i < cars.len()
            invariant
                0 <= i <= cars@.len(),
                cars_in_lane == count_in(cars@.subrange(0, i as int), current_direction),
                cars_in_lane <= i,
            decreases cars@.len() - i,
        {
            assert(cars@.subrange(0, i + 1).drop_last() == cars@.subrange(0, i as int));
            if cars[i].direction == current_direction {
                cars_in_lane = cars_in_lane + 1;
            }
            i = i + 1;
        }
        assert(cars@.subrange(0, cars@.len() as int) == cars@);
        let mut l = self.lights[self.current_light_index];
        l.duration_secs = if cars_in_lane >= lane_capacity / 2 {
            CONGESTED_DURATION_SECS
        } else {
            BASE_DURATION_SECS
        };
        self.lights.set(self.current_light_index, l);
    }
}

} // verus!
