use vstd::prelude::*;
use crate::car::Direction;

verus! {

/// Per approach direction, the number of vehicles that have been spawned
/// and have not yet passed their commit checkpoint.
#[derive(Debug, Clone, Copy, PartialEq, Eq)]
pub struct CapacityTracker {
    pub north: u32,
    pub south: u32,
    pub east: u32,
    pub west: u32,
}

impl CapacityTracker {
    /// The count kept for `d`.
    pub open spec fn count(self, d: Direction) -> u32 {
        match d {
            Direction::North => self.north,
            Direction::South => self.south,
            Direction::East => self.east,
            Direction::West => self.west,
        }
    }

    /// This tracker with the count of `d` replaced by `v`.
    pub open spec fn with_count(self, d: Direction, v: u32) -> CapacityTracker {
        match d {
            Direction::North => CapacityTracker { north: v, ..self },
            Direction::South => CapacityTracker { south: v, ..self },
            Direction::East => CapacityTracker { east: v, ..self },
            Direction::West => CapacityTracker { west: v, ..self },
        }
    }

    /// All four counts start at zero.
    pub fn new() -> (r: CapacityTracker)
        ensures
            forall|d: Direction| #[trigger] r.count(d) == 0,
    {
        CapacityTracker { north: 0, south: 0, east: 0, west: 0 }
    }

    pub fn get(&self, d: Direction) -> (r: u32)
        ensures
            r == self.count(d),
    {
        match d {
            Direction::North => self.north,
            Direction::South => self.south,
            Direction::East => self.east,
            Direction::West => self.west,
        }
    }

    fn set(&mut self, d: Direction, v: u32)
        ensures
            *final(self) == old(self).with_count(d, v),
    {
        match d {
            Direction::North => self.north = v,
            Direction::South => self.south = v,
            Direction::East => self.east = v,
            Direction::West => self.west = v,
        }
    }

    /// One more vehicle queued in `d`; the count stays at `u32::MAX` once there.
    pub fn increment(&mut self, d: Direction)
        ensures
            *final(self) == old(self).with_count(
                d,
                if old(self).count(d) < u32::MAX { (old(self).count(d) + 1) as u32 } else { u32::MAX },
            ),
    {
        let v = self.get(d);
        self.set(d, v.saturating_add(1));
    }

    /// One vehicle of `d` passed its checkpoint; a zero count stays zero.
    pub fn decrement(&mut self, d: Direction)
        ensures
            *final(self) == old(self).with_count(
                d,
                if old(self).count(d) > 0 { (old(self).count(d) - 1) as u32 } else { 0 },
            ),
    {
        let v = self.get(d);
        self.set(d, v.saturating_sub(1));
    }
}

} // verus!
