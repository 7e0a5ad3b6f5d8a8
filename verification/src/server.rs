//! The monitoring node: owns the fixed set of alarm zones and the sensor
//! boards, and orchestrates the per-cycle update that fans evaluated
//! sensor readings out to the zones' alarm points.
//!
//! The cycle is modelled by a fold over the node's sensors: each sensor
//! with a fresh reading contributes one write per zone membership, all
//! carrying the same evaluated boolean; a failed acquisition contributes
//! nothing; stale zone or point indices are skipped.

use vstd::prelude::*;
use crate::module::Module;
use crate::sensor::alarm_eval;
use crate::sensor::Membership;
use crate::sensor::Sensor;
use crate::sensor::ADC_RANGE;
use crate::zone::zone_direction;
use crate::zone::Zone;
use crate::zone::ZoneType;

verus! {

/// The monitoring node.
pub struct Server {
    pub zones: Vec<Zone>,
    pub modules: Vec<Module>,
}

/// The alarm-point state of every zone, zone by zone.
pub open spec fn zones_points(zones: Seq<Zone>) -> Seq<Seq<bool>> {
    Seq::new(zones.len(), |i: int| zones[i].alarmpunkte@)
}

/// The per-module reading sequences as mathematical sequences.
pub open spec fn readings_view(rs: Seq<Vec<Option<u32>>>) -> Seq<Seq<Option<u32>>> {
    Seq::new(rs.len(), |i: int| rs[i]@)
}

/// One alarm-point write: sets point `m.point_id` of zone `m.zone_id` to
/// `value`; the identity when either index is stale.
pub open spec fn apply_write(points: Seq<Seq<bool>>, m: Membership, value: bool) -> Seq<
    Seq<bool>,
> {
    if m.zone_id < points.len() && m.point_id < points[m.zone_id as int].len() {
        points.update(
            m.zone_id as int,
            points[m.zone_id as int].update(m.point_id as int, value),
        )
    } else {
        points
    }
}

/// The writes of one sensor's memberships, in membership order, all
/// carrying the same value.
pub open spec fn apply_memberships(
    points: Seq<Seq<bool>>,
    ms: Seq<Membership>,
    value: bool,
) -> Seq<Seq<bool>>
    decreases ms.len(),
{
    if ms.len() == 0 {
        points
    } else {
        apply_memberships(apply_write(points, ms[0], value), ms.skip(1), value)
    }
}

/// The effect of one sensor on the zones: nothing when its acquisition
/// failed, otherwise one write per membership with the evaluated boolean.
pub open spec fn apply_sensor(
    points: Seq<Seq<bool>>,
    s: Sensor,
    reading: Option<u32>,
    threshold: u32,
) -> Seq<Seq<bool>> {
    match reading {
        Option::None => points,
        Option::Some(raw) => apply_memberships(points, s.zones@, alarm_eval(raw, threshold)),
    }
}

/// The effect of one board's sensors, in board order.
pub open spec fn apply_sensors(
    points: Seq<Seq<bool>>,
    sensors: Seq<Sensor>,
    readings: Seq<Option<u32>>,
    threshold: u32,
) -> Seq<Seq<bool>>
    decreases sensors.len(),
{
    if sensors.len() == 0 {
        points
    } else {
        apply_sensors(
            apply_sensor(points, sensors[0], readings[0], threshold),
            sensors.skip(1),
            readings.skip(1),
            threshold,
        )
    }
}

/// The effect of one whole update cycle, board by board.
pub open spec fn apply_modules(
    points: Seq<Seq<bool>>,
    modules: Seq<Module>,
    readings: Seq<Seq<Option<u32>>>,
    threshold: u32,
) -> Seq<Seq<bool>>
    decreases modules.len(),
{
    if modules.len() == 0 {
        points
    } else {
        apply_modules(
            apply_sensors(points, modules[0].sensors@, readings[0], threshold),
            modules.skip(1),
            readings.skip(1),
            threshold,
        )
    }
}

/// The state of a sensor after the cycle handled its reading: the fresh
/// raw value on success, the sensor untouched on acquisition failure.
pub open spec fn updated_sensor(s: Sensor, reading: Option<u32>) -> Sensor {
    match reading {
        Option::None => s,
        Option::Some(raw) => Sensor { sensor_type: s.sensor_type, adc_value: raw, zones: s.zones },
    }
}

/// Zone kinds, polarities and alarm-point counts of `b` are those of `a`.
pub open spec fn zones_shape_eq(a: Seq<Zone>, b: Seq<Zone>) -> bool {
    b.len() == a.len() && forall|z: int|
        0 <= z < a.len() ==> (#[trigger] b[z]).zone_type == a[z].zone_type && b[z].direction
            == a[z].direction && b[z].alarmpunkte@.len() == a[z].alarmpunkte@.len()
}

/// Board `cur` is board `orig` with every sensor's reading from `rm`
/// applied: same kind, same cells, raw values overwritten on success.
pub open spec fn module_sensors_updated(orig: Module, cur: Module, rm: Seq<Option<u32>>) -> bool {
    cur.module_type == orig.module_type && cur.sensors@.len() == orig.sensors@.len() && forall|
        j: int,
    |
        0 <= j < orig.sensors@.len() ==> #[trigger] cur.sensors@[j] == updated_sensor(
            orig.sensors@[j],
            rm[j],
        )
}

/// Stepping a suffix: the element at the split point, and the rest.
proof fn lemma_skip_step<A>(s: Seq<A>, k: int)
    requires
        0 <= k < s.len(),
    ensures
        s.skip(k).len() == s.len() - k,
        s.skip(k)[0] == s[k],
        s.skip(k).skip(1) =~= s.skip(k + 1),
{
    assert(s.skip(k).skip(1) =~= s.skip(k + 1));
}

/// A single write never changes the number of zones or of alarm points.
pub proof fn lemma_apply_write_shape(points: Seq<Seq<bool>>, m: Membership, value: bool)
    ensures
        apply_write(points, m, value).len() == points.len(),
        forall|z: int|
            0 <= z < points.len() ==> (#[trigger] apply_write(points, m, value)[z]).len()
                == points[z].len(),
{
}

/// A sensor's writes never change the number of zones or of alarm points.
pub proof fn lemma_apply_memberships_shape(points: Seq<Seq<bool>>, ms: Seq<Membership>, value: bool)
    ensures
        apply_memberships(points, ms, value).len() == points.len(),
        forall|z: int|
            0 <= z < points.len() ==> (#[trigger] apply_memberships(points, ms, value)[z]).len()
                == points[z].len(),
    decreases ms.len(),
{
    if ms.len() == 0 {
    } else {
        lemma_apply_write_shape(points, ms[0], value);
        lemma_apply_memberships_shape(apply_write(points, ms[0], value), ms.skip(1), value);
    }
}

/// Every write of one sensor's cycle carries the same value, so a point
/// already holding that value still holds it afterwards.
proof fn lemma_memberships_preserve_value(
    points: Seq<Seq<bool>>,
    ms: Seq<Membership>,
    value: bool,
    z: int,
    p: int,
)
    requires
        0 <= z < points.len(),
        0 <= p < points[z].len(),
        points[z][p] == value,
    ensures
        apply_memberships(points, ms, value)[z][p] == value,
    decreases ms.len(),
{
    if ms.len() == 0 {
    } else {
        let pts1 = apply_write(points, ms[0], value);
        lemma_apply_write_shape(points, ms[0], value);
        assert(pts1[z][p] == value);
        lemma_memberships_preserve_value(pts1, ms.skip(1), value, z, p);
    }
}

/// After one sensor's writes, every alarm point named by one of its
/// memberships holds the written value.
pub proof fn lemma_memberships_write_value(
    points: Seq<Seq<bool>>,
    ms: Seq<Membership>,
    value: bool,
    k: int,
)
    requires
        0 <= k < ms.len(),
        ms[k].zone_id < points.len(),
        ms[k].point_id < points[ms[k].zone_id as int].len(),
    ensures
        apply_memberships(points, ms, value)[ms[k].zone_id as int][ms[k].point_id as int] == value,
    decreases ms.len(),
{
    let pts1 = apply_write(points, ms[0], value);
    lemma_apply_write_shape(points, ms[0], value);
    if k == 0 {
        assert(pts1[ms[0].zone_id as int][ms[0].point_id as int] == value);
        lemma_memberships_preserve_value(
            pts1,
            ms.skip(1),
            value,
            ms[0].zone_id as int,
            ms[0].point_id as int,
        );
    } else {
        assert(ms.skip(1)[k - 1] == ms[k]);
        lemma_memberships_write_value(pts1, ms.skip(1), value, k - 1);
    }
}

/// A sensor with no zone memberships never changes any zone's alarm
/// point, whatever reading its cycle handled.
pub proof fn lemma_membershipless_sensor_no_effect(
    points: Seq<Seq<bool>>,
    s: Sensor,
    reading: Option<u32>,
    threshold: u32,
)
    requires
        s.zones@.len() == 0,
    ensures
        apply_sensor(points, s, reading, threshold) == points,
{
}

/// A sensor belonging to several zones propagates the same evaluated
/// boolean to each of its alarm points within the same cycle: after the
/// sensor's writes, the points named by any two of its memberships both
/// hold exactly the evaluated value.
pub proof fn lemma_fanout_same_value(
    points: Seq<Seq<bool>>,
    s: Sensor,
    raw: u32,
    threshold: u32,
    k1: int,
    k2: int,
)
    requires
        0 <= k1 < s.zones@.len(),
        s.zones@[k1].zone_id < points.len(),
        s.zones@[k1].point_id < points[s.zones@[k1].zone_id as int].len(),
        0 <= k2 < s.zones@.len(),
        s.zones@[k2].zone_id < points.len(),
        s.zones@[k2].point_id < points[s.zones@[k2].zone_id as int].len(),
    ensures
        apply_sensor(points, s, Some(raw), threshold)[s.zones@[k1].zone_id as int][s.zones@[k1].point_id as int]
            == alarm_eval(raw, threshold),
        apply_sensor(points, s, Some(raw), threshold)[s.zones@[k2].zone_id as int][s.zones@[k2].point_id as int]
            == alarm_eval(raw, threshold),
{
    lemma_memberships_write_value(points, s.zones@, alarm_eval(raw, threshold), k1);
    lemma_memberships_write_value(points, s.zones@, alarm_eval(raw, threshold), k2);
}

/// A node all of whose sensors have zero zone memberships leaves every
/// zone's alarm points unchanged, cycle after cycle.
pub proof fn lemma_membershipless_node_unchanged(
    points: Seq<Seq<bool>>,
    modules: Seq<Module>,
    readings: Seq<Seq<Option<u32>>>,
    threshold: u32,
)
    requires
        forall|m: int, j: int|
            0 <= m < modules.len() && 0 <= j < modules[m].sensors@.len() ==> (
            #[trigger] modules[m].sensors@[j]).zones@.len() == 0,
    ensures
        apply_modules(points, modules, readings, threshold) == points,
    decreases modules.len(),
{
    if modules.len() == 0 {
    } else {
        lemma_membershipless_sensors_unchanged(
            points,
            modules[0].sensors@,
            readings[0],
            threshold,
        );
        lemma_membershipless_node_unchanged(points, modules.skip(1), readings.skip(1), threshold);
    }
}

/// One board of membership-free sensors leaves the zones unchanged.
proof fn lemma_membershipless_sensors_unchanged(
    points: Seq<Seq<bool>>,
    sensors: Seq<Sensor>,
    readings: Seq<Option<u32>>,
    threshold: u32,
)
    requires
        forall|j: int| 0 <= j < sensors.len() ==> (#[trigger] sensors[j]).zones@.len() == 0,
    ensures
        apply_sensors(points, sensors, readings, threshold) == points,
    decreases sensors.len(),
{
    if sensors.len() == 0 {
    } else {
        lemma_membershipless_sensor_no_effect(points, sensors[0], readings[0], threshold);
        lemma_membershipless_sensors_unchanged(
            points,
            sensors.skip(1),
            readings.skip(1),
            threshold,
        );
    }
}

impl Server {
    /// Creates a node with the fixed zone topology — one fault zone, one
    /// threshold zone, all alarm points `false` — and no boards.
    pub fn new() -> (r: Self)
        ensures
            r.zones@.len() == 2,
            r.zones@[0].zone_type == ZoneType::Stoerung,
            r.zones@[1].zone_type == ZoneType::Schwellenwert,
            r.zones@[0].wf(),
            r.zones@[1].wf(),
            r.zones@[0].direction == zone_direction(ZoneType::Stoerung),
            r.zones@[1].direction == zone_direction(ZoneType::Schwellenwert),
            forall|z: int, i: int|
                0 <= z < r.zones@.len() && 0 <= i < r.zones@[z].alarmpunkte@.len() ==> !(
                #[trigger] r.zones@[z].alarmpunkte@[i]),
            r.modules@.len() == 0,
    {
        let mut zones: Vec<Zone> = Vec::new();
        zones.push(Zone::new(ZoneType::Stoerung));
        zones.push(Zone::new(ZoneType::Schwellenwert));
        Server { zones, modules: Vec::new() }
    }

    /// Appends a board to the node; the zones keep their state.
    pub fn add_board(&mut self, module: Module)
        ensures
            final(self).modules@ == old(self).modules@.push(module),
            final(self).zones == old(self).zones,
    {
        self.modules.push(module);
    }

    /// Refreshes every sensor's raw value from the acquisition path; zone
    /// state, board layout and memberships keep their value.
    #[verifier::loop_isolation(false)]
    pub fn update_sensors(&mut self)
        ensures
            final(self).zones == old(self).zones,
            final(self).modules@.len() == old(self).modules@.len(),
            forall|m: int|
                0 <= m < old(self).modules@.len() ==> (#[trigger] final(self).modules@[m]).module_type
                    == old(self).modules@[m].module_type && final(self).modules@[m].sensors@.len()
                    == old(self).modules@[m].sensors@.len(),
            forall|m: int, j: int|
                0 <= m < old(self).modules@.len() && 0 <= j < old(self).modules@[m].sensors@.len()
                    ==> (#[trigger] final(self).modules@[m].sensors@[j]).sensor_type == old(self).modules@[m].sensors@[j].sensor_type && final(self).modules@[m].sensors@[j].zones
                    == old(self).modules@[m].sensors@[j].zones && final(self).modules@[m].sensors@[j].wf(),
    {
        let mut mi: usize = 0;
        while mi < self.modules.len()
            invariant
                mi <= self.modules@.len(),
                self.zones == old(self).zones,
                self.modules@.len() == old(self).modules@.len(),
                forall|m: int|
                    0 <= m < old(self).modules@.len() ==> (
                    #[trigger] self.modules@[m]).module_type == old(self).modules@[m].module_type
                        && self.modules@[m].sensors@.len() == old(self).modules@[m].sensors@.len(),
                forall|m: int, j: int|
                    0 <= m < old(self).modules@.len() && 0 <= j < old(self).modules@[m].sensors@.len() ==> (
                    #[trigger] self.modules@[m].sensors@[j]).sensor_type == old(self).modules@[m].sensors@[j].sensor_type && self.modules@[m].sensors@[j].zones
                        == old(self).modules@[m].sensors@[j].zones,
                forall|m: int, j: int|
                    0 <= m < mi && 0 <= j < old(self).modules@[m].sensors@.len() ==> (
                    #[trigger] self.modules@[m].sensors@[j]).wf(),
            decreases self.modules@.len() - mi,
        {
            let mut sj: usize = 0;
            while sj < self.modules[mi].sensors.len()
                invariant
                    mi < self.modules@.len(),
                    sj <= self.modules@[mi as int].sensors@.len(),
                    self.zones == old(self).zones,
                    self.modules@.len() == old(self).modules@.len(),
                    forall|m: int|
                        0 <= m < old(self).modules@.len() ==> (
                        #[trigger] self.modules@[m]).module_type == old(self).modules@[m].module_type && self.modules@[m].sensors@.len() == old(self).modules@[m].sensors@.len(),
                    forall|m: int, j: int|
                        0 <= m < old(self).modules@.len() && 0 <= j < old(self).modules@[m].sensors@.len() ==> (
                        #[trigger] self.modules@[m].sensors@[j]).sensor_type == old(self).modules@[m].sensors@[j].sensor_type && self.modules@[m].sensors@[j].zones
                            == old(self).modules@[m].sensors@[j].zones,
                    forall|m: int, j: int|
                        0 <= m < mi && 0 <= j < old(self).modules@[m].sensors@.len() ==> (
                        #[trigger] self.modules@[m].sensors@[j]).wf(),
                    forall|j: int|
                        0 <= j < sj ==> (#[trigger] self.modules@[mi as int].sensors@[j]).wf(),
                decreases self.modules@[mi as int].sensors@.len() - sj,
            {
                self.modules[mi].sensors[sj].update_adc();
                sj = sj + 1;
            }
            mi = mi + 1;
        }
    }

    /// Runs one update cycle: for every board and every sensor, takes the
    /// reading the acquisition collaborator supplied, stores it, evaluates
    /// it against `threshold`, and writes the evaluated boolean to the
    /// alarm point of every zone membership of that sensor.
    ///
    /// A `None` reading (acquisition failure) skips that sensor for this
    /// cycle and leaves its zones' alarm points unchanged; a stale zone or
    /// point index is skipped write by write. The cycle never changes the
    /// zone or board counts.
    #[verifier::loop_isolation(false)]
    pub fn run_update_cycle(&mut self, readings: &Vec<Vec<Option<u32>>>, threshold: u32)
        requires
            readings@.len() == old(self).modules@.len(),
            forall|m: int|
                0 <= m < readings@.len() ==> (#[trigger] readings@[m])@.len() == old(
                    self,
                ).modules@[m].sensors@.len(),
            forall|m: int, j: int|
                0 <= m < readings@.len() && 0 <= j < readings@[m]@.len() ==> ((
                #[trigger] readings@[m]@[j]) matches Some(raw) ==> raw < ADC_RANGE),
        ensures
            zones_points(final(self).zones@) == apply_modules(
                zones_points(old(self).zones@),
                old(self).modules@,
                readings_view(readings@),
                threshold,
            ),
            zones_shape_eq(old(self).zones@, final(self).zones@),
            final(self).modules@.len() == old(self).modules@.len(),
            forall|m: int|
                0 <= m < old(self).modules@.len() ==> module_sensors_updated(
                    old(self).modules@[m],
                    #[trigger] final(self).modules@[m],
                    readings@[m]@,
                ),
    {
        let ghost rv = readings_view(readings@);
        let ghost orig_mods = old(self).modules@;
        let ghost target = apply_modules(zones_points(old(self).zones@), orig_mods, rv, threshold);
        proof {
            assert(orig_mods.skip(0) =~= orig_mods);
            assert(rv.skip(0) =~= rv);
        }
        let mut mi: usize = 0;
        while mi < self.modules.len()
            invariant
                mi <= orig_mods.len(),
                self.modules@.len() == orig_mods.len(),
                zones_shape_eq(old(self).zones@, self.zones@),
                forall|m: int|
                    0 <= m < mi ==> module_sensors_updated(
                        orig_mods[m],
                        #[trigger] self.modules@[m],
                        rv[m],
                    ),
                forall|m: int| mi <= m < orig_mods.len() ==> #[trigger] self.modules@[m]
                    == orig_mods[m],
                apply_modules(
                    zones_points(self.zones@),
                    orig_mods.skip(mi as int),
                    rv.skip(mi as int),
                    threshold,
                ) == target,
            decreases orig_mods.len() - mi,
        {
            let ghost zones_at_module = zones_points(self.zones@);
            let ghost sm = orig_mods[mi as int].sensors@;
            let ghost rm = rv[mi as int];
            proof {
                lemma_skip_step(orig_mods, mi as int);
                lemma_skip_step(rv, mi as int);
                assert(apply_modules(
                    zones_at_module,
                    orig_mods.skip(mi as int),
                    rv.skip(mi as int),
                    threshold,
                ) == apply_modules(
                    apply_sensors(zones_at_module, sm, rm, threshold),
                    orig_mods.skip(mi as int + 1),
                    rv.skip(mi as int + 1),
                    threshold,
                ));
            }
            proof {
                assert(sm.skip(0) =~= sm);
                assert(rm.skip(0) =~= rm);
            }
            proof {
                assert(sm.skip(0) =~= sm);
                assert(rm.skip(0) =~= rm);
            }
            let mut sj: usize = 0;
            while sj < self.modules[mi].sensors.len()
                invariant
                    mi < orig_mods.len(),
                    sj <= sm.len(),
                    self.modules@.len() == orig_mods.len(),
                    sm == orig_mods[mi as int].sensors@,
                    rm == rv[mi as int],
                    self.modules@[mi as int].sensors@.len() == sm.len(),
                    self.modules@[mi as int].module_type == orig_mods[mi as int].module_type,
                    zones_shape_eq(old(self).zones@, self.zones@),
                    forall|m: int|
                        0 <= m < mi ==> module_sensors_updated(
                            orig_mods[m],
                            #[trigger] self.modules@[m],
                            rv[m],
                        ),
                    forall|m: int| mi < m < orig_mods.len() ==> #[trigger] self.modules@[m]
                        == orig_mods[m],
                    forall|j: int|
                        0 <= j < sj ==> #[trigger] self.modules@[mi as int].sensors@[j]
                            == updated_sensor(sm[j], rm[j]),
                    forall|j: int| sj <= j < sm.len() ==> #[trigger] self.modules@[mi as int].sensors@[j]
                        == sm[j],
                    apply_sensors(
                        zones_points(self.zones@),
                        sm.skip(sj as int),
                        rm.skip(sj as int),
                        threshold,
                    ) == apply_sensors(zones_at_module, sm, rm, threshold),
                decreases sm.len() - sj,
            {
                proof {
                    lemma_skip_step(sm, sj as int);
                    lemma_skip_step(rm, sj as int);
                }
                let ghost pts_at_sensor = zones_points(self.zones@);
                let reading: Option<u32> = readings[mi][sj];
                proof {
                    assert(reading == rm[sj as int]);
                }
                match reading {
                    Some(raw) => {
                        self.modules[mi].sensors[sj].update_value(raw);
                        let alarm = raw > threshold;
                        let ghost ms = sm[sj as int].zones@;
                        proof {
                            assert(self.modules@[mi as int].sensors@[sj as int] == updated_sensor(
                                sm[sj as int],
                                rm[sj as int],
                            ));
                            assert(zones_points(self.zones@) =~= pts_at_sensor);
                            assert(self.modules@[mi as int].sensors@[sj as int].zones@ == ms);
                            assert(apply_sensor(pts_at_sensor, sm[sj as int], rm[sj as int], threshold)
                                == apply_memberships(pts_at_sensor, ms, alarm));
                        }
                        proof {
                            assert(ms.skip(0) =~= ms);
                        }
                        let mut mk: usize = 0;
                        while mk < self.modules[mi].sensors[sj].zones.len()
                            invariant
                                mi < orig_mods.len(),
                                sj < sm.len(),
                                mk <= ms.len(),
                                self.modules@.len() == orig_mods.len(),
                                self.modules@[mi as int].sensors@.len() == sm.len(),
                                self.modules@[mi as int].module_type == orig_mods[mi as int].module_type,
                                self.modules@[mi as int].sensors@[sj as int].zones@ == ms,
                                self.modules@[mi as int].sensors@[sj as int] == updated_sensor(
                                    sm[sj as int],
                                    rm[sj as int],
                                ),
                                zones_shape_eq(old(self).zones@, self.zones@),
                                forall|m: int|
                                    0 <= m < mi ==> module_sensors_updated(
                                        orig_mods[m],
                                        #[trigger] self.modules@[m],
                                        rv[m],
                                    ),
                                forall|m: int| mi < m < orig_mods.len() ==> #[trigger] self.modules@[m]
                                    == orig_mods[m],
                                forall|j: int|
                                    0 <= j < sj ==> #[trigger] self.modules@[mi as int].sensors@[j]
                                        == updated_sensor(sm[j], rm[j]),
                                forall|j: int|
                                    sj < j < sm.len() ==> #[trigger] self.modules@[mi as int].sensors@[j]
                                        == sm[j],
                                alarm == alarm_eval(raw, threshold),
                                apply_memberships(
                                    zones_points(self.zones@),
                                    ms.skip(mk as int),
                                    alarm,
                                ) == apply_memberships(pts_at_sensor, ms, alarm),
                            decreases ms.len() - mk,
                        {
                            let mb: Membership = self.modules[mi].sensors[sj].zones[mk];
                            proof {
                                assert(mb == ms[mk as int]);
                                lemma_skip_step(ms, mk as int);
                            }
                            let ghost pts_before = zones_points(self.zones@);
                            if mb.zone_id < self.zones.len() {
                                self.zones[mb.zone_id].alarmpunkt_set(mb.point_id, alarm);
                                proof {
                                    assert(zones_points(self.zones@) =~= apply_write(
                                        pts_before,
                                        mb,
                                        alarm,
                                    ));
                                }
                            } else {
                                proof {
                                    assert(zones_points(self.zones@) == pts_before);
                                    assert(apply_write(pts_before, mb, alarm) == pts_before);
                                }
                            }
                            mk = mk + 1;
                        }
                        proof {
                            assert(ms.skip(ms.len() as int).len() == 0);
                            assert(zones_points(self.zones@) == apply_memberships(
                                pts_at_sensor,
                                ms,
                                alarm,
                            ));
                        }
                    },
                    None => {
                        proof {
                            assert(apply_sensor(pts_at_sensor, sm[sj as int], rm[sj as int], threshold)
                                == pts_at_sensor);
                            assert(updated_sensor(sm[sj as int], rm[sj as int]) == sm[sj as int]);
                        }
                    },
                }
                sj = sj + 1;
            }
            proof {
                assert(sm.skip(sm.len() as int).len() == 0);
                assert(zones_points(self.zones@) == apply_sensors(zones_at_module, sm, rm, threshold));
                assert(module_sensors_updated(orig_mods[mi as int], self.modules@[mi as int], rv[mi as int]));
            }
            mi = mi + 1;
        }
        proof {
            assert(orig_mods.skip(orig_mods.len() as int).len() == 0);
            assert(forall|m: int| 0 <= m < orig_mods.len() ==> rv[m] == (#[trigger] readings@[m])@);
        }
    }
}

} // verus!
