//! What holds of the library as a whole, stated over the models that the
//! functions' own contracts use.

use vstd::prelude::*;
use crate::config::TransportConfig;
use crate::connection::{spec_open_error, Handshake, OpenError, TransportError};
use crate::device::{
    follows_set,
    status_of,
    write_result,
    DeviceError,
    MetzConnectDO4,
    OutputState,
};
use crate::operation::{
    spec_supported,
    Operation,
    Rejection,
    MAX_READ_REGISTERS,
    READ_INPUT_REGISTERS,
};
use crate::registry::OutputDevice;
use crate::request::{spec_refusal, DispatchError};
use crate::response::{decoded_bits, first_malformed, ResponseView};
use crate::simulator::{cell_of, spec_execute, SimulatorView};

verus! {

/// Opening a connection from a valid configuration either succeeds or
/// ends in a transport error with the error number of the handshake; the
/// configuration is never the reason, and the handshake alone decides.
pub proof fn lemma_valid_config_opens(config: TransportConfig, handshake: Handshake)
    requires
        config.spec_valid(),
    ensures
        handshake == Handshake::Opened ==> spec_open_error(config, handshake) is None,
        handshake matches Handshake::Refused(code) ==> spec_open_error(config, handshake) == Some(
            OpenError::Transport(TransportError::Connect(code)),
        ),
{
}

/// An operation whose function code is not supported is answered with
/// `Unsupported` and that code, whatever else it holds and whether or not
/// the connection is connected, and the peer is left as it was.
pub proof fn lemma_unsupported_reaches_no_peer(
    connected: bool,
    unit: u8,
    operation: Operation,
    peer: SimulatorView,
)
    requires
        !spec_supported(operation.function_code),
    ensures
        spec_refusal(connected, operation) == Some(
            DispatchError::Unsupported(operation.function_code),
        ),
        spec_execute(connected, unit, operation, peer) == (
            peer,
            Err::<ResponseView, DispatchError>(
                DispatchError::Unsupported(operation.function_code),
            ),
        ),
{
}

/// Writing a value to the coil at an address that the peer has, and then
/// reading one coil at that address, yields the value that was written.
pub proof fn lemma_write_then_read(unit: u8, address: u16, value: bool, peer: SimulatorView)
    requires
        peer.link_up,
        address < peer.coils.len(),
    ensures
        ({
            let write = Operation::spec_write_single_coil(address, value);
            let read = Operation::spec_read_bits(address, 1);
            let (written, acknowledged) = spec_execute(true, unit, write, peer);
            let (after, answer) = spec_execute(true, unit, read, written);
            &&& acknowledged == Ok::<ResponseView, DispatchError>(ResponseView::Ack)
            &&& answer == Ok::<ResponseView, DispatchError>(ResponseView::Bits(seq![value]))
            &&& after == written
        }),
{
    let write = Operation::spec_write_single_coil(address, value);
    let read = Operation::spec_read_bits(address, 1);
    let (written, acknowledged) = spec_execute(true, unit, write, peer);
    assert(written.coils == peer.coils.update(address as int, value));
    let cells = Seq::new(1, |i: int| cell_of(written.coils[address + i]));
    assert(cells[0] == cell_of(value));
    assert(first_malformed(cells, 1, 1) == 1);
    assert(first_malformed(cells, 0, 1) == 1);
    assert(decoded_bits(cells, 1) =~= seq![value]);
}

/// Setting a remote output whose module is reachable, sending the
/// operation that the output asks for and taking in the answer leaves the
/// output confirmed with the status that was set: a question for its
/// status is then answered with that status.
pub proof fn lemma_remote_set_round_trip(
    unit: u8,
    device: MetzConnectDO4,
    status: bool,
    peer: SimulatorView,
)
    requires
        peer.link_up,
        device.address < peer.coils.len(),
    ensures
        ({
            let operation = Operation::spec_write_single_coil(device.address, status);
            let (module, outcome) = spec_execute(true, unit, operation, peer);
            let confirmed = device.spec_after_write(status, outcome);
            &&& write_result(outcome) == Ok::<(), DeviceError>(())
            &&& confirmed.state == OutputState::Confirmed(status)
            &&& status_of(confirmed.state) == Ok::<bool, DeviceError>(status)
            &&& module.coils == peer.coils.update(device.address as int, status)
        }),
{
}

/// A read of input registers that asks for more than one request may read
/// is refused, and the peer is left as it was: on a connection that is
/// connected the reason is the quantity.
pub proof fn lemma_quantity_bound(
    connected: bool,
    unit: u8,
    address: u16,
    quantity: u16,
    peer: SimulatorView,
)
    requires
        quantity > MAX_READ_REGISTERS,
    ensures
        ({
            let operation = Operation {
                function_code: READ_INPUT_REGISTERS,
                address,
                argument: quantity,
            };
            let (after, result) = spec_execute(connected, unit, operation, peer);
            &&& after == peer
            &&& result is Err
            &&& connected ==> result == Err::<ResponseView, DispatchError>(
                DispatchError::Rejected(Rejection::QuantityTooLarge),
            )
        }),
{
}

/// What a registry holds after the devices were registered one after the
/// other, each behind those that were there, starting from none.
pub open spec fn registered(devices: Seq<OutputDevice>) -> Seq<OutputDevice>
    decreases devices.len(),
{
    if devices.len() == 0 {
        Seq::empty()
    } else {
        registered(devices.drop_last()).push(devices.last())
    }
}

/// Whatever the devices and however many, a registry that took them one
/// after the other holds them in the order in which they came: the device
/// registered as the `i`-th is found under index `i`.
pub proof fn lemma_registration_order(devices: Seq<OutputDevice>)
    ensures
        registered(devices) == devices,
    decreases devices.len(),
{
    if devices.len() > 0 {
        lemma_registration_order(devices.drop_last());
        assert(devices.drop_last().push(devices.last()) =~= devices);
    } else {
        assert(devices =~= Seq::<OutputDevice>::empty());
    }
}

/// After a call of `set` the status of an output is never told wrongly:
/// a question for it is answered with the status that was set, or fails
/// because the output has not confirmed it.
pub proof fn lemma_status_after_set(state: OutputState, status: bool)
    requires
        follows_set(state, status),
    ensures
        status_of(state) == Ok::<bool, DeviceError>(status) || status_of(state) == Err::<
            bool,
            DeviceError,
        >(DeviceError::Unconfirmed),
{
}

} // verus!
