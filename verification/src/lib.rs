//! A verified driver-model core: a bus/device/driver registry that matches
//! devices to drivers by identifier, dispatches lifecycle callbacks, and a
//! boot-time initialization sequencer that invokes registered initialization
//! routines in priority-leveled order with fail-fast semantics.
//!
//! Concrete device drivers are external collaborators: they implement the
//! driver traits of this crate and are out of scope here.

use vstd::prelude::*;

pub mod bus;
pub mod device;
pub mod driver;
pub mod error;
pub mod init;
pub mod irq;
pub mod net;
pub mod of;
pub mod platform;
pub mod print;
pub mod str;

verus! {

/// Stands in for the handle a loaded module has to itself.
pub struct ThisModule();

/// The top level entrypoint to implementing a module.
pub trait Module: Sized {
    /// Called at module initialization time.
    ///
    /// Use this method to perform whatever setup or registration the module
    /// should do.
    fn init(module: &'static ThisModule) -> Result<Self, error::Error>;
}

} // verus!
