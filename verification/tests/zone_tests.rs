use gas_monitor::Direction;
use gas_monitor::Zone;
use gas_monitor::ZoneType;

#[test]
fn zone_stoerung() {
    let zone = Zone::new(ZoneType::Stoerung);
    assert_eq!(zone.alarmpunkt(0), Some(false));
    assert_eq!(zone.alarmpunkt(1), None);
    assert_eq!(zone.alarmpunkt(2), None);
    assert_eq!(zone.alarmpunkt(3), None);
}

#[test]
fn zone_schwellenwert() {
    let zone = Zone::new(ZoneType::Schwellenwert);
    assert_eq!(zone.alarmpunkt(0), Some(false));
    assert_eq!(zone.alarmpunkt(1), Some(false));
    assert_eq!(zone.alarmpunkt(2), Some(false));
    assert_eq!(zone.alarmpunkt(3), Some(false));
}

#[test]
fn zone_stoerung_ist_normal_closed() {
    let zone = Zone::new(ZoneType::Stoerung);
    assert_eq!(zone.direction, Direction::NC);
}

#[test]
fn zone_schwellenwert_ist_normal_open() {
    let zone = Zone::new(ZoneType::Schwellenwert);
    assert_eq!(zone.direction, Direction::NO);
}

#[test]
fn zone_point_counts_are_fixed_by_kind() {
    let fault = Zone::new(ZoneType::Stoerung);
    let threshold = Zone::new(ZoneType::Schwellenwert);
    assert_eq!(fault.alarmpunkte.len(), 1);
    assert_eq!(threshold.alarmpunkte.len(), 4);
}

#[test]
fn set_then_get_returns_the_written_value() {
    let mut zone = Zone::new(ZoneType::Schwellenwert);
    zone.alarmpunkt_set(2, true);
    assert_eq!(zone.alarmpunkt(2), Some(true));
    assert_eq!(zone.alarmpunkt(0), Some(false));
    assert_eq!(zone.alarmpunkt(1), Some(false));
    assert_eq!(zone.alarmpunkt(3), Some(false));
    zone.alarmpunkt_set(2, false);
    assert_eq!(zone.alarmpunkt(2), Some(false));
}

#[test]
fn set_with_stale_id_is_a_silent_noop() {
    let mut zone = Zone::new(ZoneType::Stoerung);
    zone.alarmpunkt_set(1, true);
    zone.alarmpunkt_set(99, true);
    assert_eq!(zone.alarmpunkt(0), Some(false));
    assert_eq!(zone.alarmpunkte.len(), 1);
}
