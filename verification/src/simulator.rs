//! A simulated peer: four tables of a Modbus device held in memory, and
//! the dispatcher run against it from request to response.

use vstd::prelude::*;
use crate::connection::{Connection, LinkState};
use crate::operation::Operation;
use crate::request::{
    prepare,
    spec_refusal,
    spec_request,
    spec_unit_id,
    DispatchError,
    Request,
    RequestView,
};
use crate::response::{complete, spec_decode, view_result, Reply, ReplyView, Response, ResponseView};

verus! {

/// Error number of a link that was reset by the peer.
pub const CONNECTION_RESET: i32 = 104;

/// Error number of an argument that the transport turns down.
pub const INVALID_ARGUMENT: i32 = 22;

/// Error number that stands for the exception "illegal data address".
pub const ILLEGAL_DATA_ADDRESS: i32 = 112345680;

/// Shortest raw frame that can be sent: a unit id and a function code.
pub const MIN_RAW_FRAME: usize = 2;

/// Longest raw frame that can be sent: a unit id and the longest body.
pub const MAX_RAW_FRAME: usize = 254;

/// A Modbus device in memory.
#[derive(Clone, Debug, PartialEq, Eq)]
pub struct Simulator {
    /// The coils, by address.
    pub coils: Vec<bool>,
    /// The discrete inputs, by address.
    pub discrete_inputs: Vec<bool>,
    /// The holding registers, by address.
    pub holding_registers: Vec<u16>,
    /// The input registers, by address.
    pub input_registers: Vec<u16>,
    /// Whether the link is up. On a link that is down every exchange fails.
    pub link_up: bool,
    /// Whether the device confirms raw frames.
    pub confirms: bool,
}

/// A simulated device with its tables as sequences.
pub struct SimulatorView {
    pub coils: Seq<bool>,
    pub discrete_inputs: Seq<bool>,
    pub holding_registers: Seq<u16>,
    pub input_registers: Seq<u16>,
    pub link_up: bool,
    pub confirms: bool,
}

impl View for Simulator {
    type V = SimulatorView;

    open spec fn view(&self) -> SimulatorView {
        SimulatorView {
            coils: self.coils@,
            discrete_inputs: self.discrete_inputs@,
            holding_registers: self.holding_registers@,
            input_registers: self.input_registers@,
            link_up: self.link_up,
            confirms: self.confirms,
        }
    }
}

/// The cell that stands for a bit.
pub open spec fn cell_of(bit: bool) -> u8 {
    if bit {
        1
    } else {
        0
    }
}

/// The answer to a read of `quantity` bits from `address` on in a table:
/// one cell for each bit, or the exception where the table is too short.
pub open spec fn read_bits_reply(table: Seq<bool>, address: u16, quantity: u16) -> ReplyView {
    if address + quantity <= table.len() {
        ReplyView::Bits {
            count: quantity,
            cells: Seq::new(quantity as nat, |i: int| cell_of(table[address + i])),
        }
    } else {
        ReplyView::Failed(ILLEGAL_DATA_ADDRESS)
    }
}

/// The answer to a read of `quantity` registers from `address` on in a
/// table, or the exception where the table is too short.
pub open spec fn read_words_reply(table: Seq<u16>, address: u16, quantity: u16) -> ReplyView {
    if address + quantity <= table.len() {
        ReplyView::Registers {
            count: quantity,
            words: table.subrange(address as int, address + quantity),
        }
    } else {
        ReplyView::Failed(ILLEGAL_DATA_ADDRESS)
    }
}

/// The answer to a raw frame: the frame comes back where the device
/// confirms, nothing comes back where it does not, and a frame that is too
/// short or too long is not sent at all.
pub open spec fn raw_reply(confirms: bool, frame: Seq<u8>) -> ReplyView {
    if frame.len() < MIN_RAW_FRAME || frame.len() > MAX_RAW_FRAME {
        ReplyView::Failed(INVALID_ARGUMENT)
    } else if confirms {
        ReplyView::Confirmation { length: frame.len() as u16, bytes: frame }
    } else {
        ReplyView::NoConfirmation
    }
}

/// What one exchange does to the device, and what the device answers. Only
/// the write of a coil changes the device.
pub open spec fn spec_exchange(device: SimulatorView, request: RequestView) -> (
    SimulatorView,
    ReplyView,
) {
    if !device.link_up {
        (device, ReplyView::Failed(CONNECTION_RESET))
    } else {
        match request {
            RequestView::ReadBits { address, quantity } => (
                device,
                read_bits_reply(device.coils, address, quantity),
            ),
            RequestView::ReadInputBits { address, quantity } => (
                device,
                read_bits_reply(device.discrete_inputs, address, quantity),
            ),
            RequestView::ReadRegisters { address, quantity } => (
                device,
                read_words_reply(device.holding_registers, address, quantity),
            ),
            RequestView::ReadInputRegisters { address, quantity } => (
                device,
                read_words_reply(device.input_registers, address, quantity),
            ),
            RequestView::WriteSingleCoil { address, value } => if address < device.coils.len() {
                (
                    SimulatorView { coils: device.coils.update(address as int, value), ..device },
                    ReplyView::Written,
                )
            } else {
                (device, ReplyView::Failed(ILLEGAL_DATA_ADDRESS))
            },
            RequestView::Raw { frame } => (device, raw_reply(device.confirms, frame)),
        }
    }
}

/// What the dispatcher does to the device for one operation, and the
/// result it hands back. An operation that is refused never reaches the
/// device.
pub open spec fn spec_execute(
    connected: bool,
    unit: u8,
    operation: Operation,
    device: SimulatorView,
) -> (SimulatorView, Result<ResponseView, DispatchError>) {
    match spec_refusal(connected, operation) {
        Some(error) => (device, Err(error)),
        None => {
            let (after, reply) = spec_exchange(device, spec_request(unit, operation));
            (after, spec_decode(operation, reply))
        },
    }
}

/// Reads `quantity` bits from `address` on in a table.
pub fn read_bits_from(table: &Vec<bool>, address: u16, quantity: u16) -> (reply: Reply)
    ensures
        reply@ == read_bits_reply(table@, address, quantity),
{
    let start: usize = address as usize;
    let wanted: usize = quantity as usize;
    if wanted > table.len() || start > table.len() - wanted {
        return Reply::Failed(ILLEGAL_DATA_ADDRESS);
    }
    let mut cells: Vec<u8> = Vec::new();
    let mut i: usize = 0;
    while i < wanted
        invariant
            i <= wanted,
            start + wanted <= table.len(),
            cells@.len() == i,
            forall|j: int| 0 <= j < i ==> cells@[j] == cell_of(table@[start + j]),
        decreases wanted - i,
    {
        let cell: u8 = if table[start + i] {
            1
        } else {
            0
        };
        cells.push(cell);
        i += 1;
    }
    assert(cells@ =~= Seq::new(quantity as nat, |i: int| cell_of(table@[address + i])));
    Reply::Bits { count: quantity, cells }
}

/// Reads `quantity` registers from `address` on in a table.
pub fn read_words_from(table: &Vec<u16>, address: u16, quantity: u16) -> (reply: Reply)
    ensures
        reply@ == read_words_reply(table@, address, quantity),
{
    let start: usize = address as usize;
    let wanted: usize = quantity as usize;
    if wanted > table.len() || start > table.len() - wanted {
        return Reply::Failed(ILLEGAL_DATA_ADDRESS);
    }
    let mut words: Vec<u16> = Vec::new();
    let mut i: usize = 0;
    while i < wanted
        invariant
            i <= wanted,
            start + wanted <= table.len(),
            words@ == table@.subrange(start as int, start + i),
        decreases wanted - i,
    {
        words.push(table[start + i]);
        assert(words@ =~= table@.subrange(start as int, start + i + 1));
        i += 1;
    }
    Reply::Registers { count: quantity, words }
}

/// Copies a frame.
pub fn copy_frame(frame: &Vec<u8>) -> (copy: Vec<u8>)
    ensures
        copy@ == frame@,
{
    let mut copy: Vec<u8> = Vec::new();
    let mut i: usize = 0;
    while i < frame.len()
        invariant
            i <= frame.len(),
            copy@ == frame@.subrange(0, i as int),
        decreases frame.len() - i,
    {
        copy.push(frame[i]);
        assert(copy@ =~= frame@.subrange(0, i + 1));
        i += 1;
    }
    assert(copy@ =~= frame@);
    copy
}

impl Simulator {
    /// A device with the given coils and no other values, with the link up
    /// and raw frames confirmed.
    pub fn with_coils(coils: Vec<bool>) -> (device: Self)
        ensures
            device@ == (SimulatorView {
                coils: coils@,
                discrete_inputs: Seq::empty(),
                holding_registers: Seq::empty(),
                input_registers: Seq::empty(),
                link_up: true,
                confirms: true,
            }),
    {
        Simulator {
            coils,
            discrete_inputs: Vec::new(),
            holding_registers: Vec::new(),
            input_registers: Vec::new(),
            link_up: true,
            confirms: true,
        }
    }

    /// Answers one request, and changes as the request asks.
    pub fn exchange(&mut self, request: &Request) -> (reply: Reply)
        ensures
            (final(self)@, reply@) == spec_exchange(old(self)@, request@),
    {
        if !self.link_up {
            return Reply::Failed(CONNECTION_RESET);
        }
        match request {
            Request::ReadBits { address, quantity } => read_bits_from(
                &self.coils,
                *address,
                *quantity,
            ),
            Request::ReadInputBits { address, quantity } => read_bits_from(
                &self.discrete_inputs,
                *address,
                *quantity,
            ),
            Request::ReadRegisters { address, quantity } => read_words_from(
                &self.holding_registers,
                *address,
                *quantity,
            ),
            Request::ReadInputRegisters { address, quantity } => read_words_from(
                &self.input_registers,
                *address,
                *quantity,
            ),
            Request::WriteSingleCoil { address, value } => {
                let index: usize = *address as usize;
                if index < self.coils.len() {
                    self.coils.set(index, *value);
                    Reply::Written
                } else {
                    Reply::Failed(ILLEGAL_DATA_ADDRESS)
                }
            },
            Request::Raw { frame } => {
                if frame.len() < MIN_RAW_FRAME || frame.len() > MAX_RAW_FRAME {
                    Reply::Failed(INVALID_ARGUMENT)
                } else if self.confirms {
                    Reply::Confirmation { length: frame.len() as u16, bytes: copy_frame(frame) }
                } else {
                    Reply::NoConfirmation
                }
            },
        }
    }
}

/// Runs one operation against a simulated device: the request is made,
/// the device answers it, and the answer is decoded. An operation that is
/// refused leaves the device as it was.
pub fn execute(connection: &Connection, operation: &Operation, device: &mut Simulator) -> (result:
    Result<Response, DispatchError>)
    ensures
        (final(device)@, view_result(result)) == spec_execute(
            connection.spec_state() == LinkState::Connected,
            spec_unit_id(connection.spec_config()),
            *operation,
            old(device)@,
        ),
{
    match prepare(connection, operation) {
        Err(error) => Err(error),
        Ok(request) => {
            let reply = device.exchange(&request);
            complete(operation, reply)
        },
    }
}

} // verus!
