//! The registry: output devices of any kind, kept in the order in which
//! they were registered, and the server that holds it.

use vstd::prelude::*;
use crate::device::{
    read_result,
    status_of,
    write_result,
    DeviceError,
    MetzConnectDO4,
    OutputState,
    Outputs,
    ShiftRegister,
};
use crate::operation::Operation;
use crate::request::DispatchError;
use crate::response::{view_result, Response, ResponseView};

verus! {

/// A device of any kind that the registry can hold.
#[derive(Clone, Copy, Debug, PartialEq, Eq, Structural)]
pub enum OutputDevice {
    /// An output that is driven locally.
    Local(ShiftRegister),
    /// An output behind a Modbus module.
    Remote(MetzConnectDO4),
}

impl OutputDevice {
    /// The device after a call of `set` with `status`: a local output has
    /// the status, a remote one waits for its module to confirm it.
    pub open spec fn spec_after_set(self, status: bool) -> OutputDevice {
        match self {
            OutputDevice::Local(_) => OutputDevice::Local(ShiftRegister { on: status }),
            OutputDevice::Remote(device) => OutputDevice::Remote(
                MetzConnectDO4 { address: device.address, state: OutputState::Pending(status) },
            ),
        }
    }

    /// The operation that has to go out for a call of `set` with `status`
    /// to take effect: the write of the coil for a remote output, none for
    /// a local one.
    pub open spec fn spec_set_operation(self, status: bool) -> Option<Operation> {
        match self {
            OutputDevice::Local(_) => None,
            OutputDevice::Remote(device) => Some(
                Operation::spec_write_single_coil(device.address, status),
            ),
        }
    }

    /// The operation that has to go out for the status to be known: the
    /// read of the coil for a remote output, none for a local one.
    pub open spec fn spec_status_operation(self) -> Option<Operation> {
        match self {
            OutputDevice::Local(_) => None,
            OutputDevice::Remote(device) => Some(Operation::spec_read_bits(device.address, 1)),
        }
    }

    /// The device after the answer to a write of `status` was taken in. A
    /// local output has nothing to learn from it.
    pub open spec fn spec_after_write(
        self,
        status: bool,
        outcome: Result<ResponseView, DispatchError>,
    ) -> OutputDevice {
        match self {
            OutputDevice::Local(_) => self,
            OutputDevice::Remote(device) => OutputDevice::Remote(
                device.spec_after_write(status, outcome),
            ),
        }
    }

    /// What taking in the answer to a write hands back.
    pub open spec fn spec_write_result(
        self,
        outcome: Result<ResponseView, DispatchError>,
    ) -> Result<(), DeviceError> {
        match self {
            OutputDevice::Local(_) => Ok(()),
            OutputDevice::Remote(_) => write_result(outcome),
        }
    }

    /// The device after the answer to a read of its status was taken in. A
    /// local output has nothing to learn from it.
    pub open spec fn spec_after_read(
        self,
        outcome: Result<ResponseView, DispatchError>,
    ) -> OutputDevice {
        match self {
            OutputDevice::Local(_) => self,
            OutputDevice::Remote(device) => OutputDevice::Remote(device.spec_after_read(outcome)),
        }
    }

    /// What taking in the answer to a read hands back: a local output
    /// tells its own status.
    pub open spec fn spec_read_result(
        self,
        outcome: Result<ResponseView, DispatchError>,
    ) -> Result<bool, DeviceError> {
        match self {
            OutputDevice::Local(device) => Ok(device.on),
            OutputDevice::Remote(_) => read_result(outcome),
        }
    }

    /// The operation that has to go out for a call of `set` with `status`
    /// to take effect, if one has to.
    pub fn set_operation(&self, status: bool) -> (operation: Option<Operation>)
        ensures
            operation == self.spec_set_operation(status),
    {
        match self {
            OutputDevice::Local(_) => None,
            OutputDevice::Remote(device) => Some(device.set_operation(status)),
        }
    }

    /// The operation that has to go out for the status to be known, if one
    /// has to.
    pub fn status_operation(&self) -> (operation: Option<Operation>)
        ensures
            operation == self.spec_status_operation(),
    {
        match self {
            OutputDevice::Local(_) => None,
            OutputDevice::Remote(device) => Some(device.status_operation()),
        }
    }

    /// Takes in the answer to a write of `status`.
    pub fn confirm_set(&mut self, status: bool, outcome: &Result<Response, DispatchError>) -> (result:
        Result<(), DeviceError>)
        ensures
            *final(self) == old(self).spec_after_write(status, view_result(*outcome)),
            result == old(self).spec_write_result(view_result(*outcome)),
    {
        match *self {
            OutputDevice::Local(_) => Ok(()),
            OutputDevice::Remote(mut device) => {
                let result = device.confirm_set(status, outcome);
                *self = OutputDevice::Remote(device);
                result
            },
        }
    }

    /// Takes in the answer to a read of the status.
    pub fn confirm_status(&mut self, outcome: &Result<Response, DispatchError>) -> (result: Result<
        bool,
        DeviceError,
    >)
        ensures
            *final(self) == old(self).spec_after_read(view_result(*outcome)),
            result == old(self).spec_read_result(view_result(*outcome)),
    {
        match *self {
            OutputDevice::Local(device) => Ok(device.on),
            OutputDevice::Remote(mut device) => {
                let result = device.confirm_status(outcome);
                *self = OutputDevice::Remote(device);
                result
            },
        }
    }
}

impl Outputs for OutputDevice {
    open spec fn spec_state(&self) -> OutputState {
        match self {
            OutputDevice::Local(device) => device.spec_state(),
            OutputDevice::Remote(device) => device.spec_state(),
        }
    }

    fn set(&mut self, status: bool)
        ensures
            *final(self) == old(self).spec_after_set(status),
    {
        match *self {
            OutputDevice::Local(mut device) => {
                device.set(status);
                *self = OutputDevice::Local(device);
            },
            OutputDevice::Remote(mut device) => {
                device.set(status);
                *self = OutputDevice::Remote(device);
            },
        }
    }

    fn status(&self) -> (result: Result<bool, DeviceError>) {
        match self {
            OutputDevice::Local(device) => device.status(),
            OutputDevice::Remote(device) => device.status(),
        }
    }
}

/// Devices in the order in which they were registered.
#[derive(Clone, Debug, PartialEq, Eq)]
pub struct Registry {
    devices: Vec<OutputDevice>,
}

impl View for Registry {
    type V = Seq<OutputDevice>;

    closed spec fn view(&self) -> Seq<OutputDevice> {
        self.devices@
    }
}

impl Registry {
    /// A registry without devices.
    pub fn new() -> (registry: Self)
        ensures
            registry@ == Seq::<OutputDevice>::empty(),
    {
        Registry { devices: Vec::new() }
    }

    /// Registers a device behind those that are there, and returns the
    /// index under which it is found from now on.
    pub fn register(&mut self, device: OutputDevice) -> (index: usize)
        ensures
            final(self)@ == old(self)@.push(device),
            index == old(self)@.len(),
    {
        let index = self.devices.len();
        self.devices.push(device);
        index
    }

    /// A registry of the given devices, registered one after the other.
    pub fn from_devices(devices: &Vec<OutputDevice>) -> (registry: Self)
        ensures
            registry@ == devices@,
    {
        let mut registry = Registry::new();
        let mut i: usize = 0;
        while i < devices.len()
            invariant
                i <= devices.len(),
                registry@ == devices@.subrange(0, i as int),
            decreases devices.len() - i,
        {
            registry.register(devices[i]);
            assert(registry@ =~= devices@.subrange(0, i + 1));
            i += 1;
        }
        assert(registry@ =~= devices@);
        registry
    }

    /// Number of devices.
    pub fn len(&self) -> (count: usize)
        ensures
            count == self@.len(),
    {
        self.devices.len()
    }

    /// The devices in the order in which they were registered.
    pub fn iter(&self) -> (devices: &[OutputDevice])
        ensures
            devices@ == self@,
    {
        self.devices.as_slice()
    }

    /// The device under an index.
    pub fn get(&self, index: usize) -> (result: Result<&OutputDevice, DeviceError>)
        ensures
            index < self@.len() ==> result == Ok::<&OutputDevice, DeviceError>(
                &self@[index as int],
            ),
            index >= self@.len() ==> result == Err::<&OutputDevice, DeviceError>(
                DeviceError::OutOfBounds,
            ),
    {
        if index < self.devices.len() {
            Ok(&self.devices[index])
        } else {
            Err(DeviceError::OutOfBounds)
        }
    }

    /// Puts a device in the place of the one under an index.
    pub fn replace(&mut self, index: usize, device: OutputDevice) -> (result: Result<
        (),
        DeviceError,
    >)
        ensures
            index < old(self)@.len() ==> result is Ok && final(self)@ == old(self)@.update(
                index as int,
                device,
            ),
            index >= old(self)@.len() ==> result == Err::<(), DeviceError>(
                DeviceError::OutOfBounds,
            ) && final(self)@ == old(self)@,
    {
        if index < self.devices.len() {
            self.devices.set(index, device);
            Ok(())
        } else {
            Err(DeviceError::OutOfBounds)
        }
    }

    /// Asks the device under an index to take the status. No other device
    /// changes.
    pub fn set(&mut self, index: usize, status: bool) -> (result: Result<(), DeviceError>)
        ensures
            index < old(self)@.len() ==> result is Ok && final(self)@ == old(self)@.update(
                index as int,
                old(self)@[index as int].spec_after_set(status),
            ),
            index >= old(self)@.len() ==> result == Err::<(), DeviceError>(
                DeviceError::OutOfBounds,
            ) && final(self)@ == old(self)@,
    {
        if index < self.devices.len() {
            let mut device = self.devices[index];
            device.set(status);
            self.devices.set(index, device);
            Ok(())
        } else {
            Err(DeviceError::OutOfBounds)
        }
    }

    /// The operation that has to go out for the device under an index to
    /// take the status, if one has to.
    pub fn set_operation(&self, index: usize, status: bool) -> (result: Result<
        Option<Operation>,
        DeviceError,
    >)
        ensures
            index < self@.len() ==> result == Ok::<Option<Operation>, DeviceError>(
                self@[index as int].spec_set_operation(status),
            ),
            index >= self@.len() ==> result == Err::<Option<Operation>, DeviceError>(
                DeviceError::OutOfBounds,
            ),
    {
        if index < self.devices.len() {
            Ok(self.devices[index].set_operation(status))
        } else {
            Err(DeviceError::OutOfBounds)
        }
    }

    /// The operation that has to go out for the status of the device under
    /// an index to be known, if one has to.
    pub fn status_operation(&self, index: usize) -> (result: Result<Option<Operation>, DeviceError>)
        ensures
            index < self@.len() ==> result == Ok::<Option<Operation>, DeviceError>(
                self@[index as int].spec_status_operation(),
            ),
            index >= self@.len() ==> result == Err::<Option<Operation>, DeviceError>(
                DeviceError::OutOfBounds,
            ),
    {
        if index < self.devices.len() {
            Ok(self.devices[index].status_operation())
        } else {
            Err(DeviceError::OutOfBounds)
        }
    }

    /// Takes in the answer to a write of `status` to the device under an
    /// index. No other device changes.
    pub fn confirm_set(
        &mut self,
        index: usize,
        status: bool,
        outcome: &Result<Response, DispatchError>,
    ) -> (result: Result<(), DeviceError>)
        ensures
            index < old(self)@.len() ==> final(self)@ == old(self)@.update(
                index as int,
                old(self)@[index as int].spec_after_write(status, view_result(*outcome)),
            ) && result == old(self)@[index as int].spec_write_result(view_result(*outcome)),
            index >= old(self)@.len() ==> result == Err::<(), DeviceError>(
                DeviceError::OutOfBounds,
            ) && final(self)@ == old(self)@,
    {
        if index < self.devices.len() {
            let mut device = self.devices[index];
            let result = device.confirm_set(status, outcome);
            self.devices.set(index, device);
            result
        } else {
            Err(DeviceError::OutOfBounds)
        }
    }

    /// Takes in the answer to a read of the status of the device under an
    /// index. No other device changes.
    pub fn confirm_status(&mut self, index: usize, outcome: &Result<Response, DispatchError>) -> (result:
        Result<bool, DeviceError>)
        ensures
            index < old(self)@.len() ==> final(self)@ == old(self)@.update(
                index as int,
                old(self)@[index as int].spec_after_read(view_result(*outcome)),
            ) && result == old(self)@[index as int].spec_read_result(view_result(*outcome)),
            index >= old(self)@.len() ==> result == Err::<bool, DeviceError>(
                DeviceError::OutOfBounds,
            ) && final(self)@ == old(self)@,
    {
        if index < self.devices.len() {
            let mut device = self.devices[index];
            let result = device.confirm_status(outcome);
            self.devices.set(index, device);
            result
        } else {
            Err(DeviceError::OutOfBounds)
        }
    }

    /// The status of the device under an index.
    pub fn status(&self, index: usize) -> (result: Result<bool, DeviceError>)
        ensures
            index < self@.len() ==> result == status_of(self@[index as int].spec_state()),
            index >= self@.len() ==> result == Err::<bool, DeviceError>(DeviceError::OutOfBounds),
    {
        if index < self.devices.len() {
            self.devices[index].status()
        } else {
            Err(DeviceError::OutOfBounds)
        }
    }
}

/// The server: it holds the registry for as long as it runs.
#[derive(Clone, Debug, PartialEq, Eq)]
pub struct Server {
    leds: Registry,
}

impl Server {
    /// The devices that the server holds.
    pub closed spec fn spec_devices(&self) -> Seq<OutputDevice> {
        self.leds@
    }

    /// A server without devices.
    pub fn new() -> (server: Self)
        ensures
            server.spec_devices() == Seq::<OutputDevice>::empty(),
    {
        Server { leds: Registry::new() }
    }

    /// A server that holds the given registry.
    pub fn with_registry(registry: Registry) -> (server: Self)
        ensures
            server.spec_devices() == registry@,
    {
        Server { leds: registry }
    }

    /// The registry of the server.
    pub fn registry(&self) -> (registry: &Registry)
        ensures
            registry@ == self.spec_devices(),
    {
        &self.leds
    }

    /// Takes in a write request: the device under the index is asked to
    /// take the status. What comes back is the operation that has to go
    /// out through the connection for the status to take effect, if one
    /// has to.
    pub fn write(&mut self, index: usize, status: bool) -> (result: Result<
        Option<Operation>,
        DeviceError,
    >)
        ensures
            index < old(self).spec_devices().len() ==> final(self).spec_devices() == old(
                self,
            ).spec_devices().update(
                index as int,
                old(self).spec_devices()[index as int].spec_after_set(status),
            ) && result == Ok::<Option<Operation>, DeviceError>(
                old(self).spec_devices()[index as int].spec_set_operation(status),
            ),
            index >= old(self).spec_devices().len() ==> result == Err::<
                Option<Operation>,
                DeviceError,
            >(DeviceError::OutOfBounds) && final(self).spec_devices() == old(self).spec_devices(),
    {
        match self.leds.set(index, status) {
            Ok(()) => self.leds.set_operation(index, status),
            Err(error) => Err(error),
        }
    }

    /// Takes in what the connection answered to a write that went out for
    /// the device under the index.
    pub fn written(&mut self, index: usize, status: bool, outcome: &Result<Response, DispatchError>) -> (result:
        Result<(), DeviceError>)
        ensures
            index < old(self).spec_devices().len() ==> final(self).spec_devices() == old(
                self,
            ).spec_devices().update(
                index as int,
                old(self).spec_devices()[index as int].spec_after_write(
                    status,
                    view_result(*outcome),
                ),
            ) && result == old(self).spec_devices()[index as int].spec_write_result(
                view_result(*outcome),
            ),
            index >= old(self).spec_devices().len() ==> result == Err::<(), DeviceError>(
                DeviceError::OutOfBounds,
            ) && final(self).spec_devices() == old(self).spec_devices(),
    {
        self.leds.confirm_set(index, status, outcome)
    }

    /// The operation that has to go out through the connection for the
    /// status of the device under the index to be known, if one has to.
    pub fn poll(&self, index: usize) -> (result: Result<Option<Operation>, DeviceError>)
        ensures
            index < self.spec_devices().len() ==> result == Ok::<Option<Operation>, DeviceError>(
                self.spec_devices()[index as int].spec_status_operation(),
            ),
            index >= self.spec_devices().len() ==> result == Err::<Option<Operation>, DeviceError>(
                DeviceError::OutOfBounds,
            ),
    {
        self.leds.status_operation(index)
    }

    /// Takes in what the connection answered to a read that went out for
    /// the device under the index.
    pub fn polled(&mut self, index: usize, outcome: &Result<Response, DispatchError>) -> (result:
        Result<bool, DeviceError>)
        ensures
            index < old(self).spec_devices().len() ==> final(self).spec_devices() == old(
                self,
            ).spec_devices().update(
                index as int,
                old(self).spec_devices()[index as int].spec_after_read(view_result(*outcome)),
            ) && result == old(self).spec_devices()[index as int].spec_read_result(
                view_result(*outcome),
            ),
            index >= old(self).spec_devices().len() ==> result == Err::<bool, DeviceError>(
                DeviceError::OutOfBounds,
            ) && final(self).spec_devices() == old(self).spec_devices(),
    {
        self.leds.confirm_status(index, outcome)
    }

    /// Takes in a read request: the status of the device under the index.
    pub fn read(&self, index: usize) -> (result: Result<bool, DeviceError>)
        ensures
            index < self.spec_devices().len() ==> result == status_of(
                self.spec_devices()[index as int].spec_state(),
            ),
            index >= self.spec_devices().len() ==> result == Err::<bool, DeviceError>(
                DeviceError::OutOfBounds,
            ),
    {
        self.leds.status(index)
    }
}

} // verus!
