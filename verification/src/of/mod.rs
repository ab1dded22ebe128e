//! Firmware-description (devicetree) abstractions: the node model, the
//! identifier type used by driver tables, interrupt lookup, and the
//! device-population step that feeds discovered devices into the platform
//! bus registry.

mod device_id;
mod irq;
mod node;
mod platform;

pub use device_id::DeviceId;
pub use irq::MAX_PHANDLE_ARGS;
pub use irq::OfPhandleArgs;
pub use irq::of_irq_get;
pub use irq::spec_irq_args;
pub use node::FwNode;
pub use platform::is_default_bus_node;
pub use platform::of_platform_bus_device_create;
pub use platform::of_platform_default_populate_init;
pub use platform::spec_child_devices;
pub use platform::spec_device_of;
pub use platform::spec_is_bus_container;
pub use platform::spec_node_devices;
pub use platform::spec_populated;
