//! The PHY driver dispatch record.

use vstd::prelude::*;

use crate::net::phy::DeviceId;
use crate::net::phy::PhyDriverFlags;

verus! {

/// Driver structure for a particular PHY type: its identity, and one
/// presence slot per optional operation.
///
/// Each slot records whether the operation is installed: an absent
/// operation is recorded as absent, never as a callable stub, and
/// invoking it through [`crate::net::phy::DriverVTable`] is rejected as
/// unsupported.  The operations themselves are dispatched statically
/// through [`crate::net::phy::Adapter`].
pub struct PhyDriver {
    /// The friendly name of this PHY type.
    pub name: String,
    /// The driver's feature flags.
    pub flags: PhyDriverFlags,
    /// The device id this driver matches.
    pub deviceid: DeviceId,
    /// Whether a soft-reset operation is installed.
    pub soft_reset: bool,
    /// Whether a get-features operation is installed.
    pub get_features: bool,
    /// Whether a custom match operation is installed.
    pub match_phy_device: bool,
    /// Whether a config-aneg operation is installed.
    pub config_aneg: bool,
    /// Whether a read-status operation is installed.
    pub read_status: bool,
    /// Whether a suspend operation is installed.
    pub suspend: bool,
    /// Whether a resume operation is installed.
    pub resume: bool,
    /// Whether an MMD read operation is installed.
    pub read_mmd: bool,
    /// Whether an MMD write operation is installed.
    pub write_mmd: bool,
    /// Whether a link-change notification is installed.
    pub link_change_notify: bool,
}

} // verus!
