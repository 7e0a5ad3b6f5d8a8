//! Alarm zones: shared boolean alarm points aggregated from many sensors.
//!
//! A zone owns a fixed-length sequence of alarm points whose length is
//! determined by the zone kind at construction and never changes afterwards.
//! Reading an invalid point index yields `None`; writing one is a silent
//! no-op, because zone-membership fan-out may present stale indices after a
//! topology change.

use vstd::prelude::*;

verus! {

/// The kinds of alarm zone, each fixing the number of alarm points.
#[derive(Debug, Clone, Copy, PartialEq, Eq, Structural)]
pub enum ZoneType {
    /// Fault zone with exactly one alarm point.
    Stoerung,
    /// Threshold zone with exactly four alarm points.
    Schwellenwert,
}

/// Polarity of the physical circuit a zone drives in its non-alarmed state.
///
/// Descriptive metadata for the output-driving collaborator; the zone
/// itself performs no polarity translation.
#[derive(Debug, Clone, Copy, PartialEq, Eq, Structural)]
pub enum Direction {
    /// Normally open.
    NO,
    /// Normally closed.
    NC,
}

/// The number of alarm points a zone of kind `t` carries.
pub open spec fn zone_point_count(t: ZoneType) -> nat {
    match t {
        ZoneType::Stoerung => 1,
        ZoneType::Schwellenwert => 4,
    }
}

/// The polarity a zone of kind `t` is created with.
pub open spec fn zone_direction(t: ZoneType) -> Direction {
    match t {
        ZoneType::Stoerung => Direction::NC,
        ZoneType::Schwellenwert => Direction::NO,
    }
}

/// An aggregation of alarm points representing one class of alarm
/// condition.
pub struct Zone {
    pub zone_type: ZoneType,
    pub alarmpunkte: Vec<bool>,
    pub direction: Direction,
}

impl Zone {
    /// Whether the zone carries the alarm-point count its kind fixes.
    pub open spec fn wf(&self) -> bool {
        self.alarmpunkte@.len() == zone_point_count(self.zone_type)
    }

    /// Creates a zone of kind `zone_type` with every alarm point `false`
    /// and the polarity the kind fixes.
    pub fn new(zone_type: ZoneType) -> (r: Self)
        ensures
            r.wf(),
            r.zone_type == zone_type,
            r.direction == zone_direction(zone_type),
            r.alarmpunkte@.len() == zone_point_count(zone_type),
            forall|i: int| 0 <= i < r.alarmpunkte@.len() ==> !r.alarmpunkte@[i],
    {
        match zone_type {
            ZoneType::Stoerung => Zone {
                zone_type: ZoneType::Stoerung,
                alarmpunkte: vec![false],
                direction: Direction::NC,
            },
            ZoneType::Schwellenwert => Zone {
                zone_type: ZoneType::Schwellenwert,
                alarmpunkte: vec![false, false, false, false],
                direction: Direction::NO,
            },
        }
    }

    /// Reads the alarm point `id`: its current value if `id` is valid for
    /// this zone, `None` otherwise.
    pub fn alarmpunkt(&self, id: usize) -> (r: Option<bool>)
        ensures
            r == if id < self.alarmpunkte@.len() {
                Some(self.alarmpunkte@[id as int])
            } else {
                None::<bool>
            },
    {
        if id < self.alarmpunkte.len() {
            Some(self.alarmpunkte[id])
        } else {
            None
        }
    }

    /// Writes the alarm point `id`; a silent no-op if `id` is invalid for
    /// this zone. Every other point, and the zone's kind and polarity, keep
    /// their value.
    pub fn alarmpunkt_set(&mut self, id: usize, value: bool)
        ensures
            id < old(self).alarmpunkte@.len() ==> final(self).alarmpunkte@ == old(
                self,
            ).alarmpunkte@.update(id as int, value),
            id >= old(self).alarmpunkte@.len() ==> *final(self) == *old(self),
            final(self).zone_type == old(self).zone_type,
            final(self).direction == old(self).direction,
            final(self).alarmpunkte@.len() == old(self).alarmpunkte@.len(),
            old(self).wf() ==> final(self).wf(),
    {
        if id < self.alarmpunkte.len() {
            self.alarmpunkte[id] = value;
        }
    }
}

/// Writing an alarm point and then reading it yields exactly the written
/// value, and reading any other point yields the value it had before.
pub proof fn lemma_alarmpunkt_set_then_get(points: Seq<bool>, id: int, value: bool)
    requires
        0 <= id < points.len(),
    ensures
        points.update(id, value)[id] == value,
        forall|j: int| 0 <= j < points.len() && j != id ==> points.update(id, value)[j] == points[j],
{
}

} // verus!
