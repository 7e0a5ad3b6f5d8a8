//! Core of a fixed-function gas-detection monitoring node.
//!
//! Sensor boards carry measurement cells whose readings are evaluated
//! against alarm zones; zones aggregate the evaluated booleans into shared
//! alarm points, which an output-driving collaborator publishes to
//! bit-addressable shift registers.

pub mod module;
pub mod sensor;
pub mod server;
pub mod shift_register;
pub mod zone;

pub use module::Module;
pub use module::ModuleType;
pub use sensor::Membership;
pub use sensor::Sensor;
pub use sensor::SensorType;
pub use server::Server;
pub use shift_register::ErrorKind;
pub use shift_register::ShiftRegister;
pub use shift_register::ShiftRegisterType;
pub use zone::Direction;
pub use zone::Zone;
pub use zone::ZoneType;
