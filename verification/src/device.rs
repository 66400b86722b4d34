//! Output devices: one capability, `set` and `status`, over outputs that
//! are driven locally and outputs that sit behind a Modbus module.

use vstd::prelude::*;
use crate::operation::Operation;
use crate::request::DispatchError;
use crate::response::{view_result, Response, ResponseView};

verus! {

/// Why a device could not be reached or its status not be told.
#[derive(Clone, Copy, Debug, PartialEq, Eq, Structural)]
pub enum DeviceError {
    /// No device is registered under the index.
    OutOfBounds,
    /// The output sits behind a module that has not confirmed its status.
    Unconfirmed,
    /// The exchange with the module failed.
    Exchange(DispatchError),
}

/// What is known of an output.
#[derive(Clone, Copy, Debug, PartialEq, Eq, Structural)]
pub enum OutputState {
    /// Nothing is known: no status was ever confirmed, or an exchange
    /// failed.
    Unknown,
    /// The status was asked for and the module has not confirmed it yet.
    Pending(bool),
    /// The output is known to have the status.
    Confirmed(bool),
}

/// The answer to a question for the status of an output in a given state:
/// the status where it is known, a failure where it is not.
pub open spec fn status_of(state: OutputState) -> Result<bool, DeviceError> {
    match state {
        OutputState::Confirmed(status) => Ok(status),
        _ => Err(DeviceError::Unconfirmed),
    }
}

/// Whether the state is what a call of `set` with `status` may leave: the
/// status is either in force or on its way.
pub open spec fn follows_set(state: OutputState, status: bool) -> bool {
    state == OutputState::Confirmed(status) || state == OutputState::Pending(status)
}

/// The capability that every output device has.
pub trait Outputs {
    /// What is known of the output.
    spec fn spec_state(&self) -> OutputState;

    /// Asks for the output to take the status.
    fn set(&mut self, status: bool)
        ensures
            follows_set(final(self).spec_state(), status),
    ;

    /// The status of the output, or a failure where it is not known.
    fn status(&self) -> (result: Result<bool, DeviceError>)
        ensures
            result == status_of(self.spec_state()),
    ;
}

/// An output that is driven locally, one bit of a shift register. Its
/// status changes with the call that sets it.
#[derive(Clone, Copy, Debug, PartialEq, Eq, Structural)]
pub struct ShiftRegister {
    /// Whether the output is on.
    pub on: bool,
}

impl ShiftRegister {
    /// A local output that is off.
    pub fn new() -> (register: Self)
        ensures
            register == (ShiftRegister { on: false }),
    {
        ShiftRegister { on: false }
    }
}

impl Outputs for ShiftRegister {
    open spec fn spec_state(&self) -> OutputState {
        OutputState::Confirmed(self.on)
    }

    fn set(&mut self, status: bool)
        ensures
            *final(self) == (ShiftRegister { on: status }),
    {
        self.on = status;
    }

    fn status(&self) -> (result: Result<bool, DeviceError>) {
        Ok(self.on)
    }
}

/// One output of a Metz Connect DO4 module: a coil at an address behind a
/// Modbus link. Its status is known only from what the module confirmed.
#[derive(Clone, Copy, Debug, PartialEq, Eq, Structural)]
pub struct MetzConnectDO4 {
    /// The address of the coil on the module.
    pub address: u16,
    /// What is known of the coil.
    pub state: OutputState,
}

/// What the answer to a write of `status` makes known of the coil.
pub open spec fn state_after_write(
    status: bool,
    outcome: Result<ResponseView, DispatchError>,
) -> OutputState {
    match outcome {
        Ok(ResponseView::Ack) => OutputState::Confirmed(status),
        _ => OutputState::Unknown,
    }
}

/// What the answer to a read of one coil makes known of it.
pub open spec fn state_after_read(outcome: Result<ResponseView, DispatchError>) -> OutputState {
    match outcome {
        Ok(ResponseView::Bits(bits)) => if bits.len() == 1 {
            OutputState::Confirmed(bits[0])
        } else {
            OutputState::Unknown
        },
        _ => OutputState::Unknown,
    }
}

/// The failure that an answer stands for where it leaves the coil
/// unknown: the error of the exchange, or an answer of the wrong shape.
pub open spec fn failure_of(outcome: Result<ResponseView, DispatchError>) -> DeviceError {
    match outcome {
        Err(error) => DeviceError::Exchange(error),
        Ok(_) => DeviceError::Unconfirmed,
    }
}

/// What a confirmation of a write hands back: success on an
/// acknowledgement, the failure that the answer stands for otherwise.
pub open spec fn write_result(outcome: Result<ResponseView, DispatchError>) -> Result<
    (),
    DeviceError,
> {
    match outcome {
        Ok(ResponseView::Ack) => Ok(()),
        _ => Err(failure_of(outcome)),
    }
}

/// What a confirmation of a read hands back: the bit where the answer
/// holds exactly one, the failure that the answer stands for otherwise.
pub open spec fn read_result(outcome: Result<ResponseView, DispatchError>) -> Result<
    bool,
    DeviceError,
> {
    match state_after_read(outcome) {
        OutputState::Confirmed(status) => Ok(status),
        _ => Err(failure_of(outcome)),
    }
}

impl MetzConnectDO4 {
    /// The output after the answer to a write of `status` was taken in.
    pub open spec fn spec_after_write(
        self,
        status: bool,
        outcome: Result<ResponseView, DispatchError>,
    ) -> MetzConnectDO4 {
        MetzConnectDO4 { address: self.address, state: state_after_write(status, outcome) }
    }

    /// The output after the answer to a read of its coil was taken in.
    pub open spec fn spec_after_read(
        self,
        outcome: Result<ResponseView, DispatchError>,
    ) -> MetzConnectDO4 {
        MetzConnectDO4 { address: self.address, state: state_after_read(outcome) }
    }

    /// An output at the address, of which nothing is known yet.
    pub fn new(address: u16) -> (device: Self)
        ensures
            device == (MetzConnectDO4 { address, state: OutputState::Unknown }),
    {
        MetzConnectDO4 { address, state: OutputState::Unknown }
    }

    /// The operation that drives the coil to the status.
    pub fn set_operation(&self, status: bool) -> (operation: Operation)
        ensures
            operation == Operation::spec_write_single_coil(self.address, status),
    {
        Operation::write_single_coil(self.address, status)
    }

    /// The operation that reads the coil.
    pub fn status_operation(&self) -> (operation: Operation)
        ensures
            operation == Operation::spec_read_bits(self.address, 1),
    {
        Operation::read_bits(self.address, 1)
    }

    /// Takes in the answer to a write of `status`: an acknowledgement
    /// confirms the status, anything else leaves the coil unknown and is
    /// handed back as a failure.
    pub fn confirm_set(&mut self, status: bool, outcome: &Result<Response, DispatchError>) -> (result:
        Result<(), DeviceError>)
        ensures
            *final(self) == old(self).spec_after_write(status, view_result(*outcome)),
            result == write_result(view_result(*outcome)),
    {
        match outcome {
            Ok(Response::Ack) => {
                self.state = OutputState::Confirmed(status);
                Ok(())
            },
            Ok(_) => {
                self.state = OutputState::Unknown;
                Err(DeviceError::Unconfirmed)
            },
            Err(error) => {
                self.state = OutputState::Unknown;
                Err(DeviceError::Exchange(*error))
            },
        }
    }

    /// Takes in the answer to a read of the coil: one bit confirms the
    /// status, anything else leaves the coil unknown and is handed back as
    /// a failure.
    pub fn confirm_status(&mut self, outcome: &Result<Response, DispatchError>) -> (result: Result<
        bool,
        DeviceError,
    >)
        ensures
            *final(self) == old(self).spec_after_read(view_result(*outcome)),
            result == read_result(view_result(*outcome)),
    {
        match outcome {
            Ok(Response::Bits(bits)) => {
                if bits.len() == 1 {
                    let status = bits[0];
                    self.state = OutputState::Confirmed(status);
                    Ok(status)
                } else {
                    self.state = OutputState::Unknown;
                    Err(DeviceError::Unconfirmed)
                }
            },
            Ok(_) => {
                self.state = OutputState::Unknown;
                Err(DeviceError::Unconfirmed)
            },
            Err(error) => {
                self.state = OutputState::Unknown;
                Err(DeviceError::Exchange(*error))
            },
        }
    }
}

impl Outputs for MetzConnectDO4 {
    open spec fn spec_state(&self) -> OutputState {
        self.state
    }

    fn set(&mut self, status: bool)
        ensures
            *final(self) == (MetzConnectDO4 {
                address: old(self).address,
                state: OutputState::Pending(status),
            }),
    {
        self.state = OutputState::Pending(status);
    }

    fn status(&self) -> (result: Result<bool, DeviceError>) {
        match self.state {
            OutputState::Confirmed(status) => Ok(status),
            _ => Err(DeviceError::Unconfirmed),
        }
    }
}

} // verus!
