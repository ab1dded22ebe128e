//! Bus bookkeeping: the registry of bus classes themselves.

mod manage;

pub use manage::BusInner;
pub use manage::BusList;
pub use manage::BusMethodEnum;
pub use manage::BusType;
pub use manage::BusTypeMethod;
pub use manage::bus_register;
pub use manage::bus_unregister;
pub use manage::spec_bus_named;
