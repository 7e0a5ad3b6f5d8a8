use gas_monitor::Module;
use gas_monitor::ModuleType;
use gas_monitor::Server;
use gas_monitor::ZoneType;

#[test]
fn basic() {
    let server = Server::new();
    assert_eq!(server.modules.len(), 0);
}

#[test]
fn server_normal_setup() {
    let mut server = Server::new();
    let module1 = Module { module_type: ModuleType::RAGAS_CO_NO, sensors: vec![] };
    server.modules.push(module1);
    assert_eq!(server.modules.len(), 1);
    assert_eq!(server.modules.get(0).unwrap().sensors.len(), 0);
}

#[test]
fn server_background_thread_update_sensors() {
    let mut server = Server::new();
    let module1 = Module::new(ModuleType::RAGAS_CO_NO);
    server.add_board(module1);
    server.update_sensors();
}

#[test]
fn server_defaults() {
    let server = Server::new();
    assert_eq!(server.modules.len(), 0);
}

#[test]
fn zone_defaults() {
    let server = Server::new();
    assert_eq!(server.zones[0].zone_type, ZoneType::Stoerung);
    assert_eq!(server.zones[1].zone_type, ZoneType::Schwellenwert);
    assert_eq!(server.zones[0].alarmpunkt(0), Some(false));
    assert_eq!(server.zones[0].alarmpunkt(1), None);
    assert_eq!(server.zones[0].alarmpunkt(2), None);
    assert_eq!(server.zones[0].alarmpunkt(3), None);
    assert_eq!(server.zones[1].alarmpunkt(0), Some(false));
    assert_eq!(server.zones[1].alarmpunkt(1), Some(false));
    assert_eq!(server.zones[1].alarmpunkt(2), Some(false));
    assert_eq!(server.zones[1].alarmpunkt(3), Some(false));
}

#[test]
fn zonen_und_module() {
    let mut server = Server::new();
    let module1 = Module::new(ModuleType::RAGAS_CO_NO);
    assert_eq!(server.modules.len(), 0);
    server.add_board(module1);
    assert_eq!(server.modules.len(), 1);
}

#[test]
fn server_kann_alarmpunkte_setzen() {
    let mut server = Server::new();
    assert_eq!(server.zones[0].alarmpunkt(0).unwrap(), false);
    server.zones[0].alarmpunkt_set(0, true);
    assert_eq!(server.zones[0].alarmpunkt(0).unwrap(), true);
}

#[test]
fn module_defaults() {
    let module = Module::new(ModuleType::RAGAS_CO_NO);
    assert_eq!(module.module_type, ModuleType::RAGAS_CO_NO);
}

#[test]
fn module_catalog_is_fixed_by_kind() {
    let module = Module::new(ModuleType::RAGAS_CO_NO);
    assert_eq!(module.sensors.len(), 2);
    assert_eq!(module.sensors[0].sensor_type, gas_monitor::SensorType::NemotoNO);
    assert_eq!(module.sensors[1].sensor_type, gas_monitor::SensorType::NemotoCO);
    assert_eq!(module.sensors[0].adc_value, 0);
    assert_eq!(module.sensors[1].adc_value, 0);
}
