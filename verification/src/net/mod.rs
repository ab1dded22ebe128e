//! Network-facing driver abstractions: PHY devices and drivers, and the
//! MDIO bus records.

pub mod mdio;
pub mod phy;
