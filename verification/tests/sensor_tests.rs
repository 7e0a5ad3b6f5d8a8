use gas_monitor::Sensor;
use gas_monitor::SensorType;
use gas_monitor::Server;

#[test]
fn sensor_defaults() {
    let sensor = Sensor::new(SensorType::NemotoCO);
    assert_eq!(sensor.adc_value, 0);
}

#[test]
fn sensor_nemoto_co() {
    let sensor = Sensor::new(SensorType::NemotoCO);
    assert_eq!(sensor.sensor_type, SensorType::NemotoCO);
}

#[test]
fn sensor_update_adc() {
    let mut sensor = Sensor::new(SensorType::NemotoCO);
    assert_eq!(sensor.adc_value(), 0);
    sensor.update_adc();
    assert!(sensor.adc_value() < 1024);
}

#[test]
fn sensor_mit_keiner_zone() {
    let sensor = Sensor::new(SensorType::NemotoCO);
    assert_eq!(sensor.zones.len(), 0);
}

#[test]
fn sensor_mit_einer_zone() {
    let mut sensor = Sensor::new(SensorType::NemotoCO);
    sensor.add_zone_membership(0, 0);
    assert_eq!(sensor.zones.len(), 1);
}

#[test]
fn sensor_mit_mehr_als_einer_zone() {
    let mut sensor = Sensor::new(SensorType::NemotoCO);
    sensor.add_zone_membership(0, 0);
    sensor.add_zone_membership(1, 0);
    assert_eq!(sensor.zones.len(), 2);
}

#[test]
fn sensor_mit_einer_zone_kann_alarmpunkt_setzen() {
    let mut server = Server::new();
    let mut sensor = Sensor::new(SensorType::NemotoCO);
    sensor.add_zone_membership(0, 0);
    let membership = sensor.zones[0];
    assert_eq!(server.zones[membership.zone_id].alarmpunkt(membership.point_id).unwrap(), false);
    // Write the first alarm point of the first zone.
    server.zones[membership.zone_id].alarmpunkt_set(membership.point_id, true);
    assert_eq!(server.zones[membership.zone_id].alarmpunkt(membership.point_id).unwrap(), true);
}

#[test]
fn sensor_mit_mehr_als_einer_zone_kann_alarmpunkt_setzen() {
    let mut server = Server::new();
    let mut sensor = Sensor::new(SensorType::NemotoCO);
    sensor.add_zone_membership(0, 0);
    sensor.add_zone_membership(1, 0);
    let first = sensor.zones[0];
    let second = sensor.zones[1];
    assert_eq!(server.zones[first.zone_id].alarmpunkt(first.point_id).unwrap(), false);
    assert_eq!(server.zones[second.zone_id].alarmpunkt(second.point_id).unwrap(), false);
    // Write the first alarm point of the first zone.
    server.zones[first.zone_id].alarmpunkt_set(first.point_id, true);
    // Write the first alarm point of the second zone.
    server.zones[second.zone_id].alarmpunkt_set(second.point_id, true);
    assert_eq!(server.zones[first.zone_id].alarmpunkt(first.point_id).unwrap(), true);
    assert_eq!(server.zones[second.zone_id].alarmpunkt(second.point_id).unwrap(), true);
}

#[test]
fn update_value_overwrites_the_raw_value() {
    let mut sensor = Sensor::new(SensorType::NemotoNO);
    sensor.update_value(1023);
    assert_eq!(sensor.adc_value(), 1023);
    sensor.update_value(0);
    assert_eq!(sensor.adc_value(), 0);
}

#[test]
fn evaluate_compares_against_the_threshold() {
    let mut sensor = Sensor::new(SensorType::NemotoCO);
    sensor.update_value(512);
    assert_eq!(sensor.evaluate(511), true);
    assert_eq!(sensor.evaluate(512), false);
    sensor.update_value(511);
    assert_eq!(sensor.evaluate(511), false);
}
