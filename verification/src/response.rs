//! Responses: what the transport reported of an exchange, and the typed
//! value that is decoded from it.

use vstd::prelude::*;
use crate::connection::TransportError;
use crate::operation::{
    is_supported,
    spec_reads_bits,
    spec_reads_registers,
    spec_supported,
    Operation,
    DIAGNOSTIC,
    READ_BITS,
    READ_INPUT_BITS,
    READ_INPUT_REGISTERS,
    READ_REGISTERS,
    WRITE_SINGLE_COIL,
};
use crate::request::{DispatchError, ProtocolReason};

verus! {

/// What the transport reported of one exchange.
#[derive(Clone, Debug, PartialEq, Eq)]
pub enum Reply {
    /// A read of bits came back: the number of values the peer sent and the
    /// buffer, one cell for each bit.
    Bits { count: u16, cells: Vec<u8> },
    /// A read of registers came back: the number of values the peer sent
    /// and the buffer.
    Registers { count: u16, words: Vec<u16> },
    /// The peer acknowledged a write.
    Written,
    /// A confirmation of a raw frame came in: the number of bytes received
    /// and the buffer.
    Confirmation { length: u16, bytes: Vec<u8> },
    /// No confirmation of a raw frame came in.
    NoConfirmation,
    /// The transport failed, with the operating system's error number.
    Failed(i32),
}

/// A reply with its buffers as sequences.
pub enum ReplyView {
    Bits { count: u16, cells: Seq<u8> },
    Registers { count: u16, words: Seq<u16> },
    Written,
    Confirmation { length: u16, bytes: Seq<u8> },
    NoConfirmation,
    Failed(i32),
}

impl View for Reply {
    type V = ReplyView;

    open spec fn view(&self) -> ReplyView {
        match self {
            Reply::Bits { count, cells } => ReplyView::Bits { count: *count, cells: cells@ },
            Reply::Registers { count, words } => ReplyView::Registers {
                count: *count,
                words: words@,
            },
            Reply::Written => ReplyView::Written,
            Reply::Confirmation { length, bytes } => ReplyView::Confirmation {
                length: *length,
                bytes: bytes@,
            },
            Reply::NoConfirmation => ReplyView::NoConfirmation,
            Reply::Failed(code) => ReplyView::Failed(*code),
        }
    }
}

/// The typed result of an operation.
#[derive(Clone, Debug, PartialEq, Eq)]
pub enum Response {
    /// The bits that were read, in the order of their addresses.
    Bits(Vec<bool>),
    /// The registers that were read, in the order of their addresses.
    Registers(Vec<u16>),
    /// The write was acknowledged.
    Ack,
    /// The confirmation of a raw frame, undecoded: the buffer and the
    /// number of bytes received into it.
    Raw { bytes: Vec<u8>, length: u16 },
    /// The peer did not confirm the raw frame.
    NoConfirmation,
}

/// A response with its values as sequences.
pub enum ResponseView {
    Bits(Seq<bool>),
    Registers(Seq<u16>),
    Ack,
    Raw { bytes: Seq<u8>, length: u16 },
    NoConfirmation,
}

impl View for Response {
    type V = ResponseView;

    open spec fn view(&self) -> ResponseView {
        match self {
            Response::Bits(bits) => ResponseView::Bits(bits@),
            Response::Registers(registers) => ResponseView::Registers(registers@),
            Response::Ack => ResponseView::Ack,
            Response::Raw { bytes, length } => ResponseView::Raw {
                bytes: bytes@,
                length: *length,
            },
            Response::NoConfirmation => ResponseView::NoConfirmation,
        }
    }
}

/// The least index from `from` on and below `count` whose cell is neither
/// 0 nor 1, or `count` where there is none.
pub open spec fn first_malformed(cells: Seq<u8>, from: int, count: int) -> int
    decreases count - from,
{
    if from >= count {
        count
    } else if cells[from] > 1 {
        from
    } else {
        first_malformed(cells, from + 1, count)
    }
}

/// The bits that the first `count` cells stand for.
pub open spec fn decoded_bits(cells: Seq<u8>, count: int) -> Seq<bool> {
    Seq::new(count as nat, |i: int| cells[i] == 1)
}

/// What is wrong with the answer to a read of `quantity` values, if
/// anything: the count is looked at first, then the length of the buffer.
pub open spec fn count_fault(quantity: u16, count: u16, held: nat) -> Option<ProtocolReason> {
    if count != quantity {
        Some(ProtocolReason::CountMismatch { expected: quantity, received: count })
    } else if held < count {
        Some(ProtocolReason::Truncated { claimed: count, held: held as usize })
    } else {
        None
    }
}

/// The decoding of the answer to a read of `quantity` bits.
pub open spec fn decode_bits(quantity: u16, count: u16, cells: Seq<u8>) -> Result<
    ResponseView,
    DispatchError,
> {
    match count_fault(quantity, count, cells.len()) {
        Some(reason) => Err(DispatchError::Protocol(reason)),
        None => {
            let index = first_malformed(cells, 0, count as int);
            if index < count {
                Err(
                    DispatchError::Protocol(
                        ProtocolReason::Malformed { index: index as usize, value: cells[index] },
                    ),
                )
            } else {
                Ok(ResponseView::Bits(decoded_bits(cells, count as int)))
            }
        },
    }
}

/// The decoding of the answer to a read of `quantity` registers.
pub open spec fn decode_registers(quantity: u16, count: u16, cells: Seq<u16>) -> Result<
    ResponseView,
    DispatchError,
> {
    match count_fault(quantity, count, cells.len()) {
        Some(reason) => Err(DispatchError::Protocol(reason)),
        None => Ok(ResponseView::Registers(cells.subrange(0, count as int))),
    }
}

/// The decoding of what came back for a raw frame.
pub open spec fn decode_confirmation(length: u16, bytes: Seq<u8>) -> Result<
    ResponseView,
    DispatchError,
> {
    if bytes.len() < length {
        Err(
            DispatchError::Protocol(
                ProtocolReason::Truncated { claimed: length, held: bytes.len() as usize },
            ),
        )
    } else {
        Ok(ResponseView::Raw { bytes, length })
    }
}

/// The response to an operation, given what the transport reported. An
/// unknown function code comes first and a failure of the transport
/// second; an answer of the wrong kind is a protocol error. Only a
/// diagnostic exchange may end without a confirmation.
pub open spec fn spec_decode(operation: Operation, reply: ReplyView) -> Result<
    ResponseView,
    DispatchError,
> {
    let code = operation.function_code;
    let unexpected: Result<ResponseView, DispatchError> = Err(
        DispatchError::Protocol(ProtocolReason::UnexpectedReply),
    );
    if !spec_supported(code) {
        Err(DispatchError::Unsupported(code))
    } else {
        match reply {
            ReplyView::Failed(os_code) => Err(
                DispatchError::Transport(TransportError::Exchange(os_code)),
            ),
            ReplyView::Bits { count, cells } => if spec_reads_bits(code) {
                decode_bits(operation.argument, count, cells)
            } else {
                unexpected
            },
            ReplyView::Registers { count, words } => if spec_reads_registers(code) {
                decode_registers(operation.argument, count, words)
            } else {
                unexpected
            },
            ReplyView::Written => if code == WRITE_SINGLE_COIL {
                Ok(ResponseView::Ack)
            } else {
                unexpected
            },
            ReplyView::Confirmation { length, bytes } => if code == DIAGNOSTIC {
                decode_confirmation(length, bytes)
            } else {
                unexpected
            },
            ReplyView::NoConfirmation => if code == DIAGNOSTIC {
                Ok(ResponseView::NoConfirmation)
            } else {
                unexpected
            },
        }
    }
}

/// A result with its response taken by its view.
pub open spec fn view_result(result: Result<Response, DispatchError>) -> Result<
    ResponseView,
    DispatchError,
> {
    match result {
        Ok(response) => Ok(response@),
        Err(error) => Err(error),
    }
}

/// Decodes the cells of a read of `quantity` bits.
pub fn bits_from_cells(quantity: u16, count: u16, cells: &Vec<u8>) -> (result: Result<
    Response,
    DispatchError,
>)
    ensures
        view_result(result) == decode_bits(quantity, count, cells@),
{
    if count != quantity {
        return Err(
            DispatchError::Protocol(
                ProtocolReason::CountMismatch { expected: quantity, received: count },
            ),
        );
    }
    if cells.len() < count as usize {
        return Err(
            DispatchError::Protocol(
                ProtocolReason::Truncated { claimed: count, held: cells.len() },
            ),
        );
    }
    let wanted: usize = count as usize;
    let mut bits: Vec<bool> = Vec::new();
    let mut i: usize = 0;
    while i < wanted
        invariant
            i <= wanted,
            wanted == count,
            count == quantity,
            wanted <= cells.len(),
            bits@.len() == i,
            forall|j: int| 0 <= j < i ==> bits@[j] == (cells@[j] == 1),
            first_malformed(cells@, 0, count as int) == first_malformed(
                cells@,
                i as int,
                count as int,
            ),
        decreases wanted - i,
    {
        let cell = cells[i];
        assert(first_malformed(cells@, i as int, count as int) == if cell > 1 {
            i as int
        } else {
            first_malformed(cells@, i + 1, count as int)
        });
        if cell > 1 {
            return Err(
                DispatchError::Protocol(ProtocolReason::Malformed { index: i, value: cell }),
            );
        }
        bits.push(cell == 1);
        i += 1;
    }
    assert(bits@ =~= decoded_bits(cells@, count as int));
    Ok(Response::Bits(bits))
}

/// Decodes the cells of a read of `quantity` registers.
pub fn registers_from_cells(quantity: u16, count: u16, cells: &Vec<u16>) -> (result: Result<
    Response,
    DispatchError,
>)
    ensures
        view_result(result) == decode_registers(quantity, count, cells@),
{
    if count != quantity {
        return Err(
            DispatchError::Protocol(
                ProtocolReason::CountMismatch { expected: quantity, received: count },
            ),
        );
    }
    if cells.len() < count as usize {
        return Err(
            DispatchError::Protocol(
                ProtocolReason::Truncated { claimed: count, held: cells.len() },
            ),
        );
    }
    let wanted: usize = count as usize;
    let mut registers: Vec<u16> = Vec::new();
    let mut i: usize = 0;
    while i < wanted
        invariant
            i <= wanted,
            wanted == count,
            count == quantity,
            wanted <= cells.len(),
            registers@ == cells@.subrange(0, i as int),
        decreases wanted - i,
    {
        registers.push(cells[i]);
        assert(registers@ =~= cells@.subrange(0, i + 1));
        i += 1;
    }
    Ok(Response::Registers(registers))
}

/// Decodes what the transport reported into the response to an operation.
pub fn complete(operation: &Operation, reply: Reply) -> (result: Result<Response, DispatchError>)
    ensures
        view_result(result) == spec_decode(*operation, reply@),
{
    let code = operation.function_code;
    if !is_supported(code) {
        return Err(DispatchError::Unsupported(code));
    }
    let unexpected = DispatchError::Protocol(ProtocolReason::UnexpectedReply);
    match reply {
        Reply::Failed(os_code) => Err(DispatchError::Transport(TransportError::Exchange(os_code))),
        Reply::Bits { count, cells } => {
            if code == READ_BITS || code == READ_INPUT_BITS {
                bits_from_cells(operation.argument, count, &cells)
            } else {
                Err(unexpected)
            }
        },
        Reply::Registers { count, words } => {
            if code == READ_REGISTERS || code == READ_INPUT_REGISTERS {
                registers_from_cells(operation.argument, count, &words)
            } else {
                Err(unexpected)
            }
        },
        Reply::Written => {
            if code == WRITE_SINGLE_COIL {
                Ok(Response::Ack)
            } else {
                Err(unexpected)
            }
        },
        Reply::Confirmation { length, bytes } => {
            if code != DIAGNOSTIC {
                Err(unexpected)
            } else if bytes.len() < length as usize {
                Err(
                    DispatchError::Protocol(
                        ProtocolReason::Truncated { claimed: length, held: bytes.len() },
                    ),
                )
            } else {
                Ok(Response::Raw { bytes, length })
            }
        },
        Reply::NoConfirmation => {
            if code == DIAGNOSTIC {
                Ok(Response::NoConfirmation)
            } else {
                Err(unexpected)
            }
        },
    }
}

} // verus!
