//! The generic driver layer: the common driver record, the subsystem
//! registration protocol, and the removal hook for driver-private data.

use vstd::prelude::*;

use crate::ThisModule;
use crate::error::Error;

verus! {

/// The common record every loaded driver carries: its name and the module
/// that owns it.
pub struct DeviceDriver {
    /// The driver's name; bus registries reject a second driver under a
    /// name already taken.
    pub name: String,
    /// The module that owns the driver, once registered.
    pub owner: Option<&'static ThisModule>,
}

impl Default for DeviceDriver {
    fn default() -> (r: Self)
        ensures
            r.name@ == Seq::<char>::empty(),
            r.owner is None,
    {
        DeviceDriver { name: String::new(), owner: None }
    }
}

impl Clone for DeviceDriver {
    fn clone(&self) -> (r: Self)
        ensures
            r == *self,
    {
        DeviceDriver { name: self.name.clone(), owner: self.owner }
    }
}

impl DeviceDriver {
    /// Records the driver's name and owning module.
    pub fn register(&mut self, name: &'static str, owner: &'static ThisModule) -> (r: Result<
        (),
        Error,
    >)
        ensures
            r is Ok,
            final(self).name@ == name@,
            final(self).owner == Some(owner),
    {
        self.name = name.to_owned();
        self.owner = Some(owner);
        Ok(())
    }
}

/// A subsystem (platform, MDIO, etc.) that allows drivers to be written for
/// it.
pub trait DriverOps {
    /// The type that holds information about the registration.
    type RegType: Default;

    /// The bus registry the subsystem registers its drivers with.
    type Bus;

    /// Registers a driver with its subsystem's registry.
    fn register(
        reg: &mut Self::RegType,
        bus: &mut Self::Bus,
        name: &'static str,
        module: &'static ThisModule,
    ) -> Result<(), Error>;

    /// Unregisters a driver previously registered with
    /// [`DriverOps::register`].
    fn unregister(reg: &mut Self::RegType);
}

/// The registration of a driver.
///
/// A registration object registers at most once; a second attempt is
/// rejected as an invalid argument, before the subsystem is involved.
pub struct Registration<T: DriverOps> {
    /// Whether this object already registered its driver.
    pub is_registered: bool,
    /// The subsystem-specific registration state.
    pub concrete_reg: T::RegType,
}

impl<T: DriverOps> Registration<T> {
    /// Creates a new instance of the registration object.
    pub fn new() -> (r: Self)
        ensures
            !r.is_registered,
    {
        Self { is_registered: false, concrete_reg: <T::RegType as Default>::default() }
    }

    /// Allocates a registration object on the heap and registers it.
    pub fn new_pinned(
        bus: &mut T::Bus,
        name: &'static str,
        module: &'static ThisModule,
    ) -> (r: Result<Box<Self>, Error>)
        ensures
            r matches Ok(reg) ==> reg.is_registered,
    {
        let mut reg = Box::new(Self::new());
        match reg.register(bus, name, module) {
            Ok(()) => Ok(reg),
            Err(e) => Err(e),
        }
    }

    /// Registers a driver with its subsystem.
    ///
    /// An object that already registered is rejected with an invalid
    /// argument and left unchanged, and the registry is not consulted: the
    /// driver list cannot receive a duplicate entry through it.
    pub fn register(&mut self, bus: &mut T::Bus, name: &'static str, module: &'static ThisModule)
        -> (r: Result<(), Error>)
        ensures
            old(self).is_registered ==> {
                &&& r == Err::<(), Error>(Error::InvalidArgument)
                &&& *final(self) == *old(self)
                &&& *final(bus) == *old(bus)
            },
            !old(self).is_registered ==> (final(self).is_registered <==> r is Ok),
    {
        if self.is_registered {
            return Err(Error::InvalidArgument);
        }
        match T::register(&mut self.concrete_reg, bus, name, module) {
            Ok(()) => {
                self.is_registered = true;
                Ok(())
            },
            Err(e) => Err(e),
        }
    }

    /// Unregisters the driver, if this object registered it; an object
    /// that never registered is left entirely unchanged, so there is no
    /// teardown without a registration.
    pub fn unregister_now(&mut self)
        ensures
            !final(self).is_registered,
            !old(self).is_registered ==> *final(self) == *old(self),
    {
        if self.is_registered {
            T::unregister(&mut self.concrete_reg);
            self.is_registered = false;
        }
    }
}

impl<T: DriverOps> Default for Registration<T> {
    fn default() -> (r: Self)
        ensures
            !r.is_registered,
    {
        Self::new()
    }
}

/// Custom code within device removal.
pub trait DeviceRemoval {
    /// Cleans resources up when the device is removed.
    fn device_remove(&self);
}

impl DeviceRemoval for () {
    fn device_remove(&self) {
    }
}

impl<T: DeviceRemoval> DeviceRemoval for Box<T> {
    fn device_remove(&self) {
        (**self).device_remove();
    }
}

impl<T: DeviceRemoval> DeviceRemoval for std::sync::Arc<T> {
    fn device_remove(&self) {
        (**self).device_remove();
    }
}

} // verus!
