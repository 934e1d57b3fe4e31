use vstd::prelude::*;
use crate::capacity::CapacityTracker;
use crate::car::{
    all_entries_safe, commits_now, entry_of, entry_position, fresh_car, lane, may_move, on_approach_lane, past_checkpoint,
    position_safe, progress, stepped, Car, Direction, Route, EXIT_MARGIN, SAFETY_DISTANCE, SPEED,
};
use crate::roads::{Color, HEIGHT, WIDTH};
use crate::traffic_light::{LightState, TrafficLight, TrafficLightSystem};

verus! {

/// A vehicle that is on the canvas and has not passed its checkpoint.
pub open spec fn queued(c: Car) -> bool {
    c.active && !c.committed
}

/// The vehicle lies within the canvas widened by the exit margin.
pub open spec fn within_margin(c: Car) -> bool {
    -EXIT_MARGIN <= c.x <= WIDTH + EXIT_MARGIN && -EXIT_MARGIN <= c.y <= HEIGHT + EXIT_MARGIN
}

/// If `a` and `b` are queued in one lane and direction, `a` is ahead of
/// `b` by at least the safety distance.
pub open spec fn separated(a: Car, b: Car) -> bool {
    (queued(a) && queued(b) && a.direction == b.direction && lane(
        a.direction,
        a.x as int,
        a.y as int,
    ) == lane(a.direction, b.x as int, b.y as int)) ==> progress(a.direction, a.x as int, a.y as int)
        - progress(a.direction, b.x as int, b.y as int) >= SAFETY_DISTANCE
}

/// Invariant of the vehicle registry: ids count up from one, all vehicles
/// move at the fixed speed, active ones stay near the canvas, queued ones
/// stand on the approach lane of their direction, and within a lane every
/// queued vehicle keeps the safety distance behind each earlier one.
pub open spec fn registry_wf(cars: Seq<Car>) -> bool {
    &&& forall|k: int|
        0 <= k < cars.len() ==> {
            &&& (#[trigger] cars[k]).id == k + 1
            &&& cars[k].speed == SPEED
            &&& (cars[k].active ==> within_margin(cars[k]))
            &&& (queued(cars[k]) ==> on_approach_lane(cars[k]))
        }
    &&& forall|i: int, j: int| 0 <= i < j < cars.len() ==> separated(#[trigger] cars[i], #[trigger] cars[j])
}

/// The number of queued vehicles of `cars` travelling in `d`.
pub open spec fn queued_count(cars: Seq<Car>, d: Direction) -> nat
    decreases cars.len(),
{
    if cars.len() == 0 {
        0
    } else {
        queued_count(cars.drop_last(), d) + if queued(cars.last()) && cars.last().direction == d {
            1nat
        } else {
            0nat
        }
    }
}

/// Whether `c` is a queued vehicle of `d`, as a number.
pub open spec fn queued_in(c: Car, d: Direction) -> int {
    if queued(c) && c.direction == d {
        1
    } else {
        0
    }
}

proof fn lemma_queued_count_update(cars: Seq<Car>, i: int, v: Car, d: Direction)
    requires
        0 <= i < cars.len(),
    ensures
        queued_count(cars.update(i, v), d) == queued_count(cars, d) - queued_in(cars[i], d)
            + queued_in(v, d),
    decreases cars.len(),
{
    let next = cars.update(i, v);
    if i == cars.len() - 1 {
        assert(next.drop_last() =~= cars.drop_last());
    } else {
        lemma_queued_count_update(cars.drop_last(), i, v, d);
        assert(next.drop_last() =~= cars.drop_last().update(i, v));
    }
}

proof fn lemma_queued_count_push(cars: Seq<Car>, c: Car, d: Direction)
    ensures
        queued_count(cars.push(c), d) == queued_count(cars, d) + queued_in(c, d),
{
    assert(cars.push(c).drop_last() =~= cars);
}

proof fn lemma_queued_count_bound(cars: Seq<Car>, d: Direction)
    ensures
        queued_count(cars, d) <= cars.len(),
    decreases cars.len(),
{
    if cars.len() > 0 {
        lemma_queued_count_bound(cars.drop_last(), d);
    }
}

/// Each count of the tracker is the number of queued vehicles of its direction.
pub open spec fn counts_match(capacity: CapacityTracker, cars: Seq<Car>) -> bool {
    forall|d: Direction| #[trigger] capacity.count(d) == queued_count(cars, d)
}

/// Commit monotonicity: a tick never clears `committed`, and sets it exactly
/// when an active vehicle not yet committed has reached its checkpoint.
pub proof fn lemma_commit_monotone(c: Car, green: Direction, snapshot: Seq<Car>)
    ensures
        c.committed ==> stepped(c, green, snapshot).committed,
        (!c.committed && stepped(c, green, snapshot).committed) == commits_now(c),
{
}

/// Every vehicle of `cars` after one tick against the snapshot `cars`.
pub open spec fn step_all(cars: Seq<Car>, green: Direction) -> Seq<Car> {
    Seq::new(cars.len(), |k: int| stepped(cars[k], green, cars))
}

/// What one tick does to a vehicle of a well-formed registry.
proof fn lemma_step_car(c: Car, green: Direction, snapshot: Seq<Car>)
    requires
        c.speed == SPEED,
        c.active ==> within_margin(c),
        queued(c) ==> on_approach_lane(c),
    ensures
        ({
            let s = stepped(c, green, snapshot);
            &&& s.id == c.id
            &&& s.speed == c.speed
            &&& (c.committed ==> s.committed)
            &&& (s.active ==> within_margin(s))
            &&& queued(s) == (queued(c) && !past_checkpoint(c))
            &&& (queued(s) ==> {
                &&& on_approach_lane(s)
                &&& queued(c)
                &&& !past_checkpoint(c)
                &&& s.direction == c.direction
                &&& lane(c.direction, s.x as int, s.y as int) == lane(c.direction, c.x as int, c.y as int)
                &&& (progress(c.direction, s.x as int, s.y as int) == progress(c.direction, c.x as int, c.y as int)
                    || (progress(c.direction, s.x as int, s.y as int) == progress(c.direction, c.x as int, c.y as int) + SPEED
                        && may_move(c, snapshot)))
            })
        }),
{
}

/// Lane separation: if the registry is well formed before a tick, it is
/// well formed after it. In particular, for every two active vehicles that
/// have not passed their checkpoint and share a direction and a lane, the
/// earlier one is ahead of the later one by at least the safety distance.
pub proof fn lemma_lane_separation(cars: Seq<Car>, green: Direction)
    requires
        registry_wf(cars),
    ensures
        registry_wf(step_all(cars, green)),
{
    let next = step_all(cars, green);
    assert forall|k: int| 0 <= k < next.len() implies {
        &&& (#[trigger] next[k]).id == k + 1
        &&& next[k].speed == SPEED
        &&& (next[k].active ==> within_margin(next[k]))
        &&& (queued(next[k]) ==> on_approach_lane(next[k]))
    } by {
        lemma_step_car(cars[k], green, cars);
    }
    assert forall|i: int, j: int| 0 <= i < j < next.len() implies separated(
        #[trigger] next[i],
        #[trigger] next[j],
    ) by {
        lemma_step_car(cars[i], green, cars);
        lemma_step_car(cars[j], green, cars);
        assert(separated(cars[i], cars[j]));
    }
}

/// Adding a vehicle at the entry of its direction, where it conflicts with
/// no existing vehicle, keeps the registry well formed.
proof fn lemma_spawn_keeps_registry(cars: Seq<Car>, d: Direction, route: Route)
    requires
        registry_wf(cars),
        cars.len() < u64::MAX,
        position_safe(entry_of(d).0, entry_of(d).1, d, cars),
    ensures
        registry_wf(cars.push(fresh_car(entry_of(d).0, entry_of(d).1, d, route, cars.len()))),
{
    let c = fresh_car(entry_of(d).0, entry_of(d).1, d, route, cars.len());
    let next = cars.push(c);
    assert(next[cars.len() as int] == c);
    assert forall|k: int| 0 <= k < next.len() implies {
        &&& (#[trigger] next[k]).id == k + 1
        &&& next[k].speed == SPEED
        &&& (next[k].active ==> within_margin(next[k]))
        &&& (queued(next[k]) ==> on_approach_lane(next[k]))
    } by {
        if k < cars.len() {
            assert(next[k] == cars[k]);
        } else {
            assert(next[k] == c);
            match d {
                Direction::North => {},
                Direction::South => {},
                Direction::East => {},
                Direction::West => {},
            }
        }
    }
    assert forall|i: int, j: int| 0 <= i < j < next.len() implies separated(
        #[trigger] next[i],
        #[trigger] next[j],
    ) by {
        assert(next[i] == cars[i]);
        if j < cars.len() {
            assert(next[j] == cars[j]);
        } else {
            assert(next[j] == c);
            assert(!crate::car::conflicts(c.x, c.y, d, cars[i]));
        }
    }
}

/// A drawable rectangle handed to the renderer.
#[derive(Debug, Clone, Copy, PartialEq, Eq)]
pub struct Drawable {
    pub x: i32,
    pub y: i32,
    pub w: u32,
    pub h: u32,
    pub color: Color,
}

/// The color that shows a light's state.
pub open spec fn light_color(s: LightState) -> Color {
    match s {
        LightState::Red => Color { r: 255, g: 0, b: 0 },
        LightState::Green => Color { r: 0, g: 255, b: 0 },
    }
}

/// How a light is drawn.
pub open spec fn light_drawable(l: TrafficLight) -> Drawable {
    Drawable { x: l.position.0, y: l.position.1, w: 50, h: 50, color: light_color(l.state) }
}

/// One drawable per active vehicle, in registry order.
pub open spec fn car_drawables(cars: Seq<Car>) -> Seq<Drawable>
    decreases cars.len(),
{
    if cars.len() == 0 {
        Seq::empty()
    } else {
        let rest = car_drawables(cars.drop_last());
        let c = cars.last();
        if c.active {
            rest.push(Drawable { x: c.x, y: c.y, w: 50, h: 50, color: c.color })
        } else {
            rest
        }
    }
}

/// The whole state of the simulation: the vehicle registry, the per
/// direction queue counts and the lights.
#[derive(Debug)]
pub struct Simulation {
    pub cars: Vec<Car>,
    pub capacity: CapacityTracker,
    pub lights: TrafficLightSystem,
}

impl Simulation {
    pub open spec fn wf(&self) -> bool {
        &&& registry_wf(self.cars@)
        &&& counts_match(self.capacity, self.cars@)
        &&& self.lights.wf()
    }

    /// No vehicle, all counts zero, North green.
    pub fn new() -> (r: Simulation)
        ensures
            r.wf(),
            r.cars@.len() == 0,
            forall|d: Direction| #[trigger] r.capacity.count(d) == 0,
            r.lights.green() == Direction::North,
    {
        Simulation {
            cars: Vec::new(),
            capacity: CapacityTracker::new(),
            lights: TrafficLightSystem::new(),
        }
    }

    fn register(&mut self, c: Car)
        requires
            old(self).wf(),
            old(self).cars@.len() < u32::MAX,
            position_safe(entry_of(c.direction).0, entry_of(c.direction).1, c.direction, old(self).cars@),
            c == fresh_car(entry_of(c.direction).0, entry_of(c.direction).1, c.direction, c.route, old(self).cars@.len()),
        ensures
            final(self).wf(),
            final(self).cars@ == old(self).cars@.push(c),
            final(self).capacity == old(self).capacity.with_count(
                c.direction,
                (old(self).capacity.count(c.direction) + 1) as u32,
            ),
            final(self).lights == old(self).lights,
    {
        proof {
            lemma_spawn_keeps_registry(self.cars@, c.direction, c.route);
            assert forall|d: Direction| #[trigger] self.capacity.count(d) == queued_count(self.cars@, d) implies
                queued_count(self.cars@, d) < u32::MAX by {
                lemma_queued_count_bound(self.cars@, d);
            }
        }
        let ghost cars0 = self.cars@;
        let ghost cap0 = self.capacity;
        self.cars.push(c);
        self.capacity.increment(c.direction);
        proof {
            assert forall|d: Direction| #[trigger] self.capacity.count(d) == queued_count(self.cars@, d) by {
                lemma_queued_count_push(cars0, c, d);
                assert(cap0.count(d) == queued_count(cars0, d));
            }
        }
    }

    /// Spawns a vehicle with a random route at the entry of `direction`,
    /// unless that conflicts with an existing vehicle; returns whether one
    /// was created. A created vehicle is counted in its direction.
    pub fn spawn(&mut self, direction: Direction) -> (r: bool)
        requires
            old(self).wf(),
            old(self).cars@.len() < u32::MAX,
        ensures
            final(self).wf(),
            r == position_safe(entry_of(direction).0, entry_of(direction).1, direction, old(self).cars@),
            r ==> exists|route: Route|
                final(self).cars@ == old(self).cars@.push(
                    #[trigger] fresh_car(entry_of(direction).0, entry_of(direction).1, direction, route, old(self).cars@.len()),
                ),
            r ==> final(self).capacity == old(self).capacity.with_count(
                direction,
                (old(self).capacity.count(direction) + 1) as u32,
            ),
            !r ==> final(self).cars@ == old(self).cars@ && final(self).capacity == old(self).capacity,
            final(self).lights == old(self).lights,
    {
        let (x, y) = entry_position(direction);
        match Car::new(x, y, direction, self.cars.as_slice()) {
            Some(c) => {
                self.register(c);
                true
            },
            None => false,
        }
    }

    /// Spawns a vehicle in a random direction, trying up to ten directions;
    /// returns whether one was created.
    pub fn spawn_random(&mut self) -> (r: bool)
        requires
            old(self).wf(),
            old(self).cars@.len() < u32::MAX,
        ensures
            final(self).wf(),
            r ==> exists|c: Car|
                #[trigger] old(self).cars@.push(c) == final(self).cars@
                && c == fresh_car(entry_of(c.direction).0, entry_of(c.direction).1, c.direction, c.route, old(self).cars@.len())
                && position_safe(c.x, c.y, c.direction, old(self).cars@)
                && final(self).capacity == old(self).capacity.with_count(
                    c.direction,
                    (old(self).capacity.count(c.direction) + 1) as u32,
                ),
            all_entries_safe(old(self).cars@) ==> r,
            !r ==> final(self).cars@ == old(self).cars@ && final(self).capacity == old(self).capacity,
            final(self).lights == old(self).lights,
    {
        match Car::new_with_rand_dir(self.cars.as_slice()) {
            Some(c) => {
                self.register(c);
                true
            },
            None => false,
        }
    }

    /// Re-evaluates the lights from the current counts; nothing changes
    /// while a vehicle occupies the intersection center.
    pub fn update_lights(&mut self)
        requires
            old(self).wf(),
        ensures
            final(self).wf(),
            final(self).cars@ == old(self).cars@,
            final(self).capacity == old(self).capacity,
            crate::traffic_light::center_empty(old(self).cars@) ==> final(self).lights.green()
                == crate::traffic_light::selected_direction(old(self).capacity),
            !crate::traffic_light::center_empty(old(self).cars@) ==> final(self).lights
                == old(self).lights,
    {
        self.lights.update(&self.capacity, self.cars.as_slice());
    }

    /// Re-evaluates the lights once `elapsed_secs` has reached
    /// `next_check_secs` and the intersection center is clear, and returns
    /// when to look next: `period_secs` later after a re-evaluation,
    /// otherwise the same time, so that a blocked re-evaluation is retried.
    pub fn poll_lights(&mut self, elapsed_secs: u64, next_check_secs: u64, period_secs: u64) -> (r: u64)
        requires
            old(self).wf(),
        ensures
            final(self).wf(),
            final(self).cars@ == old(self).cars@,
            final(self).capacity == old(self).capacity,
            ({
                let due = elapsed_secs >= next_check_secs && crate::traffic_light::center_empty(old(self).cars@);
                &&& due ==> final(self).lights.green() == crate::traffic_light::selected_direction(old(self).capacity)
                &&& due ==> r == if next_check_secs + period_secs <= u64::MAX {
                    (next_check_secs + period_secs) as u64
                } else {
                    u64::MAX
                }
                &&& !due ==> final(self).lights == old(self).lights && r == next_check_secs
            }),
    {
        if elapsed_secs >= next_check_secs && crate::traffic_light::is_empty_center(self.cars.as_slice()) {
            self.update_lights();
            next_check_secs.saturating_add(period_secs)
        } else {
            next_check_secs
        }
    }

    /// Advances every vehicle by one tick, each deciding against the
    /// positions that all vehicles had when the tick began.
    pub fn tick(&mut self)
        requires
            old(self).wf(),
        ensures
            final(self).wf(),
            final(self).cars@ == step_all(old(self).cars@, old(self).lights.green()),
            final(self).lights == old(self).lights,
    {
        let mut snapshot: Vec<Car> = Vec::new();
        let mut j: usize = 0;
        while j < self.cars.len()
            invariant
                0 <= j <= self.cars@.len(),
                snapshot@ == self.cars@.subrange(0, j as int),
            decreases self.cars@.len() - j,
        {
            snapshot.push(self.cars[j]);
            j = j + 1;
        }
        assert(snapshot@ == self.cars@.subrange(0, self.cars@.len() as int));
        assert(snapshot@ =~= self.cars@);
        let ghost green = self.lights.green();
        let ghost lights0 = self.lights;
        let mut i: usize = 0;
        while i < self.cars.len()
            invariant
                self.lights == lights0,
                self.lights.wf(),
                counts_match(self.capacity, self.cars@),
                self.lights.green() == green,
                registry_wf(snapshot@),
                self.cars@.len() == snapshot@.len(),
                0 <= i <= snapshot@.len(),
                forall|k: int| 0 <= k < i ==> self.cars@[k] == stepped(#[trigger] snapshot@[k], green, snapshot@),
                forall|k: int| i <= k < snapshot@.len() ==> self.cars@[k] == #[trigger] snapshot@[k],
            decreases snapshot@.len() - i,
        {
            let mut c = self.cars[i];
            let ghost before = self.cars@;
            let ghost cap0 = self.capacity;
            proof {
                assert(snapshot@[i as int].speed == SPEED);
            }
            c.update_position(&self.lights, snapshot.as_slice(), &mut self.capacity);
            self.cars.set(i, c);
            proof {
                lemma_step_car(snapshot@[i as int], green, snapshot@);
                assert forall|d: Direction| #[trigger] self.capacity.count(d) == queued_count(self.cars@, d) by {
                    lemma_queued_count_update(before, i as int, c, d);
                    assert(cap0.count(d) == queued_count(before, d));
                }
            }
            i = i + 1;
        }
        proof {
            lemma_lane_separation(snapshot@, green);
            assert(self.cars@ =~= step_all(snapshot@, green));
        }
    }

    /// What the renderer draws this tick: each active vehicle, then each light.
    pub fn drawables(&self) -> (r: Vec<Drawable>)
        requires
            self.wf(),
        ensures
            r@ == car_drawables(self.cars@) + self.lights.lights@.map_values(|l: TrafficLight| light_drawable(l)),
    {
        let mut r: Vec<Drawable> = Vec::new();
        let mut i: usize = 0;
        while i < self.cars.len()
            invariant
                0 <= i <= self.cars@.len(),
                r@ == car_drawables(self.cars@.subrange(0, i as int)),
            decreases self.cars@.len() - i,
        {
            assert(self.cars@.subrange(0, i + 1).drop_last() == self.cars@.subrange(0, i as int));
            let c = self.cars[i];
            if c.active {
                r.push(Drawable { x: c.x, y: c.y, w: 50, h: 50, color: c.color });
            }
            i = i + 1;
        }
        assert(self.cars@.subrange(0, self.cars@.len() as int) == self.cars@);
        let ghost cars_part = r@;
        let mut k: usize = 0;
        while k < self.lights.lights.len()
            invariant
                self.wf(),
                0 <= k <= 4,
                r@.len() == cars_part.len() + k,
                forall|m: int| 0 <= m < cars_part.len() ==> r@[m] == cars_part[m],
                forall|m: int|
                    0 <= m < k ==> #[trigger] r@[cars_part.len() + m] == light_drawable(self.lights.lights@[m]),
            decreases 4 - k,
        {
            let l = self.lights.lights[k];
            let color = match l.state {
                LightState::Red => Color::rgb(255, 0, 0),
                LightState::Green => Color::rgb(0, 255, 0),
            };
            r.push(Drawable { x: l.position.0, y: l.position.1, w: 50, h: 50, color });
            k = k + 1;
        }
        assert forall|m: int| cars_part.len() <= m < r@.len() implies r@[m]
            == light_drawable(self.lights.lights@[m - cars_part.len()]) by {
            let q = m - cars_part.len();
            assert(r@[cars_part.len() + q] == light_drawable(self.lights.lights@[q]));
        }
        assert(r@ =~= cars_part + self.lights.lights@.map_values(|l: TrafficLight| light_drawable(l)));
        r
    }
}

} // verus!
