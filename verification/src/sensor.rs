//! Measurement cells: one physical channel producing a raw scalar value.
//!
//! A sensor belongs to zero, one or many alarm zones. A membership names
//! its zone and alarm point by stable indices into the node's zone list,
//! not by reference, so zones can be relocated freely.

use vstd::prelude::*;
use rand::Rng;

verus! {

/// One past the largest raw value a 10-bit acquisition channel produces.
pub const ADC_RANGE: u32 = 1024;

/// The kinds of measurement cell carried by sensor boards.
#[derive(Debug, Clone, Copy, PartialEq, Eq, Structural)]
pub enum SensorType {
    /// Nemoto carbon-monoxide cell.
    NemotoCO,
    /// Nemoto nitrogen-dioxide cell.
    NemotoNO,
}

/// One zone membership of a sensor: the zone it feeds and the alarm point
/// within that zone that carries this sensor's evaluated state.
#[derive(Debug, Clone, Copy, PartialEq, Eq, Structural)]
pub struct Membership {
    pub zone_id: usize,
    pub point_id: usize,
}

/// The evaluation policy mapping a raw value to an alarm-point boolean:
/// the point is alarmed exactly when the raw value exceeds the threshold.
pub open spec fn alarm_eval(raw: u32, threshold: u32) -> bool {
    raw > threshold
}

/// One measurement channel with its kind, last raw value and zone
/// memberships.
pub struct Sensor {
    pub sensor_type: SensorType,
    pub adc_value: u32,
    pub zones: Vec<Membership>,
}

/// Relies on rand::Rng::gen_range over 0..1024: a value drawn below 1024.
/// Stands in for the hardware acquisition path during demonstration runs.
#[verifier::external_body]
fn sample_adc() -> (r: u32)
    ensures
        r < ADC_RANGE,
{
    rand::thread_rng().gen_range(0..1024)
}

impl Sensor {
    /// Whether the raw value lies in the acquisition domain.
    pub open spec fn wf(&self) -> bool {
        self.adc_value < ADC_RANGE
    }

    /// Creates a cell of kind `sensor_type` with the raw value at the
    /// domain minimum and no zone memberships.
    pub fn new(sensor_type: SensorType) -> (r: Self)
        ensures
            r.wf(),
            r.sensor_type == sensor_type,
            r.adc_value == 0,
            r.zones@ =~= Seq::<Membership>::empty(),
    {
        Sensor { sensor_type, adc_value: 0, zones: Vec::new() }
    }

    /// The last acquired raw value.
    pub fn adc_value(&self) -> (r: u32)
        ensures
            r == self.adc_value,
    {
        self.adc_value
    }

    /// Overwrites the raw value with a freshly acquired one; kind and
    /// memberships keep their value.
    pub fn update_adc(&mut self)
        ensures
            final(self).wf(),
            final(self).sensor_type == old(self).sensor_type,
            final(self).zones == old(self).zones,
    {
        self.adc_value = sample_adc();
    }

    /// Overwrites the raw value with one supplied by the acquisition
    /// collaborator; kind and memberships keep their value.
    pub fn update_value(&mut self, raw: u32)
        requires
            raw < ADC_RANGE,
        ensures
            final(self).wf(),
            final(self).adc_value == raw,
            final(self).sensor_type == old(self).sensor_type,
            final(self).zones == old(self).zones,
    {
        self.adc_value = raw;
    }

    /// Evaluates the stored raw value against the policy threshold.
    pub fn evaluate(&self, threshold: u32) -> (r: bool)
        ensures
            r == alarm_eval(self.adc_value, threshold),
    {
        self.adc_value > threshold
    }

    /// Adds a membership: from now on the sensor feeds alarm point
    /// `point_id` of zone `zone_id`. Memberships are additive only.
    pub fn add_zone_membership(&mut self, zone_id: usize, point_id: usize)
        ensures
            final(self).zones@ == old(self).zones@.push(Membership { zone_id, point_id }),
            final(self).sensor_type == old(self).sensor_type,
            final(self).adc_value == old(self).adc_value,
    {
        self.zones.push(Membership { zone_id, point_id });
    }
}

} // verus!
