//! Sensor boards: physical carriers grouping a fixed set of measurement
//! cells, populated from a catalog keyed by the board kind.

use vstd::prelude::*;
use crate::sensor::Sensor;
use crate::sensor::SensorType;

verus! {

/// The kinds of sensor board the node supports.
#[allow(non_camel_case_types)]
#[derive(Debug, Clone, Copy, PartialEq, Eq, Structural)]
pub enum ModuleType {
    /// Combined board carrying one NO2 cell and one CO cell.
    RAGAS_CO_NO,
}

/// The catalog: the measurement-cell kinds a board of kind `t` carries,
/// in board order.
pub open spec fn module_catalog(t: ModuleType) -> Seq<SensorType> {
    match t {
        ModuleType::RAGAS_CO_NO => seq![SensorType::NemotoNO, SensorType::NemotoCO],
    }
}

/// A sensor board with the cells its kind fixes.
pub struct Module {
    pub module_type: ModuleType,
    pub sensors: Vec<Sensor>,
}

impl Module {
    /// Whether every cell is in its acquisition domain.
    pub open spec fn wf(&self) -> bool {
        forall|i: int| 0 <= i < self.sensors@.len() ==> (#[trigger] self.sensors@[i]).wf()
    }

    /// Creates a board of kind `module_type`, populated from the catalog:
    /// fresh cells of the catalog's kinds, in catalog order, each with the
    /// raw value at the domain minimum and no zone memberships.
    pub fn new(module_type: ModuleType) -> (r: Self)
        ensures
            r.wf(),
            r.module_type == module_type,
            r.sensors@.len() == module_catalog(module_type).len(),
            forall|i: int|
                0 <= i < r.sensors@.len() ==> (#[trigger] r.sensors@[i]).sensor_type
                    == module_catalog(module_type)[i] && r.sensors@[i].adc_value == 0
                    && r.sensors@[i].zones@.len() == 0,
    {
        match module_type {
            ModuleType::RAGAS_CO_NO => {
                let mut sensors: Vec<Sensor> = Vec::new();
                sensors.push(Sensor::new(SensorType::NemotoNO));
                sensors.push(Sensor::new(SensorType::NemotoCO));
                Module { module_type: ModuleType::RAGAS_CO_NO, sensors }
            },
        }
    }
}

} // verus!
