//! Platform devices and drivers: the bus registry for platform-attached
//! hardware, its registration protocol, and its lifecycle adapter.

mod platform_bus;
mod platform_dev;
mod platform_drv;

pub use platform_bus::PlatformBus;
pub use platform_bus::device_match;
pub use platform_bus::first_match_index;
pub use platform_bus::platform_device_register;
pub use platform_bus::platform_driver_register;
pub use platform_bus::spec_index_listed;
pub use platform_bus::spec_index_listed_before;
pub use platform_bus::spec_probe_stopped;
pub use platform_bus::spec_table_of;
pub use platform_bus::spec_device_matches;
pub use platform_bus::spec_has_driver_name;
pub use platform_bus::spec_match_target;
pub use platform_bus::lemma_empty_table_never_matches;
pub use platform_bus::lemma_registered_name_taken;
pub use platform_dev::PlatformDevice;
pub use platform_drv::Adapter;
pub use platform_drv::Driver;
pub use platform_drv::PlatformDriver;
pub use platform_drv::table_wf;
pub use platform_drv::spec_released;
pub use platform_drv::lemma_release_idempotent;
