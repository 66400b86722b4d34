//! Requests: what the transport is asked to do for an operation, with the
//! hand-built frame of the diagnostic exchange.

use vstd::prelude::*;
use crate::config::TransportConfig;
use crate::connection::{Connection, LinkState};
use crate::operation::{
    is_supported,
    spec_supported,
    Operation,
    Rejection,
    DIAGNOSTIC,
    READ_BITS,
    READ_INPUT_BITS,
    READ_INPUT_REGISTERS,
    READ_REGISTERS,
    WRITE_SINGLE_COIL,
};
use crate::connection::TransportError;

verus! {

/// Unit id that a request carries where no serial slave is addressed.
pub const TCP_UNIT_ID: u8 = 0xFF;

/// Length in bytes of a diagnostic frame: unit id, function code and two
/// 16-bit fields.
pub const DIAGNOSTIC_FRAME_LENGTH: usize = 6;

/// Most bytes that an answer on a serial line can hold.
pub const RTU_MAX_ADU_LENGTH: usize = 256;

/// Most bytes that an answer over TCP can hold.
pub const TCP_MAX_ADU_LENGTH: usize = 260;

/// Why an answer could not be decoded.
#[derive(Clone, Copy, Debug, PartialEq, Eq, Structural)]
pub enum ProtocolReason {
    /// The answer is of another kind than the operation asks for.
    UnexpectedReply,
    /// The peer answered with another number of values than was asked for.
    CountMismatch { expected: u16, received: u16 },
    /// The buffer holds fewer cells than the answer claims.
    Truncated { claimed: u16, held: usize },
    /// A cell that stands for one bit holds something else than 0 or 1.
    Malformed { index: usize, value: u8 },
}

/// Why the dispatcher did not produce a response.
#[derive(Clone, Copy, Debug, PartialEq, Eq, Structural)]
pub enum DispatchError {
    /// The function code is not one the dispatcher knows.
    Unsupported(u8),
    /// The operation was turned down before anything was sent.
    Rejected(Rejection),
    /// The answer was malformed or short.
    Protocol(ProtocolReason),
    /// The transport failed during the exchange.
    Transport(TransportError),
}

/// What the transport is asked to do.
#[derive(Clone, Debug, PartialEq, Eq)]
pub enum Request {
    ReadBits { address: u16, quantity: u16 },
    ReadInputBits { address: u16, quantity: u16 },
    ReadRegisters { address: u16, quantity: u16 },
    ReadInputRegisters { address: u16, quantity: u16 },
    WriteSingleCoil { address: u16, value: bool },
    /// Send the frame as it stands and wait for a confirmation.
    Raw { frame: Vec<u8> },
}

/// A request with its frame as a sequence of bytes.
pub enum RequestView {
    ReadBits { address: u16, quantity: u16 },
    ReadInputBits { address: u16, quantity: u16 },
    ReadRegisters { address: u16, quantity: u16 },
    ReadInputRegisters { address: u16, quantity: u16 },
    WriteSingleCoil { address: u16, value: bool },
    Raw { frame: Seq<u8> },
}

impl View for Request {
    type V = RequestView;

    open spec fn view(&self) -> RequestView {
        match self {
            Request::ReadBits { address, quantity } => RequestView::ReadBits {
                address: *address,
                quantity: *quantity,
            },
            Request::ReadInputBits { address, quantity } => RequestView::ReadInputBits {
                address: *address,
                quantity: *quantity,
            },
            Request::ReadRegisters { address, quantity } => RequestView::ReadRegisters {
                address: *address,
                quantity: *quantity,
            },
            Request::ReadInputRegisters { address, quantity } => RequestView::ReadInputRegisters {
                address: *address,
                quantity: *quantity,
            },
            Request::WriteSingleCoil { address, value } => RequestView::WriteSingleCoil {
                address: *address,
                value: *value,
            },
            Request::Raw { frame } => RequestView::Raw { frame: frame@ },
        }
    }
}

/// High byte of a 16-bit field.
pub open spec fn high_byte(field: u16) -> u8 {
    (field / 256) as u8
}

/// Low byte of a 16-bit field.
pub open spec fn low_byte(field: u16) -> u8 {
    (field % 256) as u8
}

/// The diagnostic frame: unit id, the diagnostic function code, then the
/// sub-function and the data word, each with its high byte first.
pub open spec fn diagnostic_frame(unit: u8, sub_function: u16, data: u16) -> Seq<u8> {
    seq![
        unit,
        DIAGNOSTIC,
        high_byte(sub_function),
        low_byte(sub_function),
        high_byte(data),
        low_byte(data),
    ]
}

/// The unit id that requests on a transport carry: the configured slave id
/// on a serial line, the TCP unit id otherwise.
pub open spec fn spec_unit_id(config: TransportConfig) -> u8 {
    match config.spec_slave_id() {
        Some(id) => id,
        None => TCP_UNIT_ID,
    }
}

/// The request that an accepted operation is turned into.
pub open spec fn spec_request(unit: u8, operation: Operation) -> RequestView {
    let address = operation.address;
    let quantity = operation.argument;
    if operation.function_code == READ_BITS {
        RequestView::ReadBits { address, quantity }
    } else if operation.function_code == READ_INPUT_BITS {
        RequestView::ReadInputBits { address, quantity }
    } else if operation.function_code == READ_REGISTERS {
        RequestView::ReadRegisters { address, quantity }
    } else if operation.function_code == READ_INPUT_REGISTERS {
        RequestView::ReadInputRegisters { address, quantity }
    } else if operation.function_code == WRITE_SINGLE_COIL {
        RequestView::WriteSingleCoil { address, value: operation.spec_coil_value() }
    } else {
        RequestView::Raw { frame: diagnostic_frame(unit, operation.address, operation.argument) }
    }
}

/// Why no request is made of an operation, if none is: an unknown function
/// code comes first, then the rules of the operation.
pub open spec fn spec_refusal(connected: bool, operation: Operation) -> Option<DispatchError> {
    if !spec_supported(operation.function_code) {
        Some(DispatchError::Unsupported(operation.function_code))
    } else {
        match operation.spec_rejection(connected) {
            Some(rejection) => Some(DispatchError::Rejected(rejection)),
            None => None,
        }
    }
}

/// Builds the diagnostic frame for a unit, a sub-function and a data word.
pub fn encode_diagnostic_frame(unit: u8, sub_function: u16, data: u16) -> (frame: Vec<u8>)
    ensures
        frame@ == diagnostic_frame(unit, sub_function, data),
        frame@.len() == DIAGNOSTIC_FRAME_LENGTH,
{
    let mut frame: Vec<u8> = Vec::new();
    frame.push(unit);
    frame.push(DIAGNOSTIC);
    frame.push((sub_function / 256) as u8);
    frame.push((sub_function % 256) as u8);
    frame.push((data / 256) as u8);
    frame.push((data % 256) as u8);
    assert(frame@ =~= diagnostic_frame(unit, sub_function, data));
    frame
}

/// The unit id that requests on this connection carry.
pub fn unit_id(connection: &Connection) -> (unit: u8)
    ensures
        unit == spec_unit_id(connection.spec_config()),
{
    match connection.slave_id() {
        Some(id) => id,
        None => TCP_UNIT_ID,
    }
}

/// Turns an operation into the request to hand to the transport, or says
/// why none is made. Nothing is sent here: the caller sends what comes
/// back, and only on `Ok`.
pub fn prepare(connection: &Connection, operation: &Operation) -> (result: Result<
    Request,
    DispatchError,
>)
    ensures
        match spec_refusal(connection.spec_state() == LinkState::Connected, *operation) {
            Some(error) => result == Err::<Request, DispatchError>(error),
            None => result is Ok && result->Ok_0@ == spec_request(
                spec_unit_id(connection.spec_config()),
                *operation,
            ),
        },
{
    let code = operation.function_code;
    if !is_supported(code) {
        return Err(DispatchError::Unsupported(code));
    }
    match operation.check(connection.is_connected()) {
        Err(rejection) => {
            return Err(DispatchError::Rejected(rejection));
        },
        Ok(()) => {},
    }
    let address = operation.address;
    let quantity = operation.argument;
    if code == READ_BITS {
        Ok(Request::ReadBits { address, quantity })
    } else if code == READ_INPUT_BITS {
        Ok(Request::ReadInputBits { address, quantity })
    } else if code == READ_REGISTERS {
        Ok(Request::ReadRegisters { address, quantity })
    } else if code == READ_INPUT_REGISTERS {
        Ok(Request::ReadInputRegisters { address, quantity })
    } else if code == WRITE_SINGLE_COIL {
        Ok(Request::WriteSingleCoil { address, value: operation.argument != 0 })
    } else {
        let frame = encode_diagnostic_frame(unit_id(connection), address, quantity);
        Ok(Request::Raw { frame })
    }
}

impl Request {
    /// Number of cells the buffer for the answer has to hold: one for each
    /// value of a read, none for a write, and the longest answer the
    /// transport can carry for a raw frame.
    pub open spec fn spec_reply_cells(&self, config: TransportConfig) -> int {
        match self {
            Request::ReadBits { quantity, .. } => *quantity as int,
            Request::ReadInputBits { quantity, .. } => *quantity as int,
            Request::ReadRegisters { quantity, .. } => *quantity as int,
            Request::ReadInputRegisters { quantity, .. } => *quantity as int,
            Request::WriteSingleCoil { .. } => 0,
            Request::Raw { .. } => if config is Rtu {
                RTU_MAX_ADU_LENGTH as int
            } else {
                TCP_MAX_ADU_LENGTH as int
            },
        }
    }

    /// Number of cells the buffer for the answer has to hold.
    pub fn reply_cells(&self, config: &TransportConfig) -> (cells: usize)
        ensures
            cells == self.spec_reply_cells(*config),
    {
        match self {
            Request::ReadBits { quantity, .. } => *quantity as usize,
            Request::ReadInputBits { quantity, .. } => *quantity as usize,
            Request::ReadRegisters { quantity, .. } => *quantity as usize,
            Request::ReadInputRegisters { quantity, .. } => *quantity as usize,
            Request::WriteSingleCoil { .. } => 0,
            Request::Raw { .. } => match config {
                TransportConfig::Rtu { .. } => RTU_MAX_ADU_LENGTH,
                _ => TCP_MAX_ADU_LENGTH,
            },
        }
    }
}

} // verus!
