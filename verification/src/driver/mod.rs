//! Drivers: the common driver record, the registration protocol shared by
//! all subsystems, and identifier tables.

mod driver;
mod driver_id;

pub use driver::DeviceDriver;
pub use driver::DeviceRemoval;
pub use driver::DriverOps;
pub use driver::Registration;
pub use driver_id::IdArray;
