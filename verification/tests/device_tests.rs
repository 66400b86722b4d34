use xmz_modbus::connection::TransportError;
use xmz_modbus::device::{DeviceError, MetzConnectDO4, OutputState, Outputs, ShiftRegister};
use xmz_modbus::operation::Operation;
use xmz_modbus::registry::{OutputDevice, Registry, Server};
use xmz_modbus::request::{DispatchError, ProtocolReason};
use xmz_modbus::response::Response;

#[test]
fn shift_register_starts_off() {
    let register = ShiftRegister::new();
    assert_eq!(register, ShiftRegister { on: false });
    assert_eq!(register.status(), Ok(false));
}

#[test]
fn shift_register_status_follows_set() {
    let mut register = ShiftRegister::new();
    register.set(true);
    assert_eq!(register.status(), Ok(true));
    register.set(true);
    assert_eq!(register.status(), Ok(true));
    register.set(false);
    assert_eq!(register.status(), Ok(false));
}

#[test]
fn remote_output_is_unknown_until_confirmed() {
    let device = MetzConnectDO4::new(3);
    assert_eq!(device, MetzConnectDO4 { address: 3, state: OutputState::Unknown });
    assert_eq!(device.status(), Err(DeviceError::Unconfirmed));
}

#[test]
fn remote_set_is_pending_until_acknowledged() {
    let mut device = MetzConnectDO4::new(3);
    device.set(true);
    assert_eq!(device.state, OutputState::Pending(true));
    assert_eq!(device.address, 3);
    assert_eq!(device.status(), Err(DeviceError::Unconfirmed));
    assert_eq!(device.confirm_set(true, &Ok(Response::Ack)), Ok(()));
    assert_eq!(device.state, OutputState::Confirmed(true));
    assert_eq!(device.status(), Ok(true));
}

#[test]
fn remote_set_that_fails_leaves_the_output_unknown() {
    let mut device = MetzConnectDO4 { address: 3, state: OutputState::Confirmed(false) };
    device.set(true);
    let failure = DispatchError::Transport(TransportError::Exchange(104));
    assert_eq!(
        device.confirm_set(true, &Err(failure)),
        Err(DeviceError::Exchange(failure))
    );
    assert_eq!(device.state, OutputState::Unknown);
    assert_eq!(device.status(), Err(DeviceError::Unconfirmed));
}

#[test]
fn remote_set_answered_with_another_response_is_unconfirmed() {
    let mut device = MetzConnectDO4::new(0);
    device.set(false);
    assert_eq!(
        device.confirm_set(false, &Ok(Response::NoConfirmation)),
        Err(DeviceError::Unconfirmed)
    );
    assert_eq!(device.state, OutputState::Unknown);
}

#[test]
fn remote_status_is_taken_from_one_bit() {
    let mut device = MetzConnectDO4::new(9);
    assert_eq!(device.confirm_status(&Ok(Response::Bits(vec![true]))), Ok(true));
    assert_eq!(device.status(), Ok(true));
    assert_eq!(device.confirm_status(&Ok(Response::Bits(vec![false]))), Ok(false));
    assert_eq!(device.status(), Ok(false));
    assert_eq!(device.address, 9);
}

#[test]
fn remote_status_of_the_wrong_shape_is_a_failure() {
    let mut device = MetzConnectDO4 { address: 9, state: OutputState::Confirmed(true) };
    assert_eq!(
        device.confirm_status(&Ok(Response::Bits(vec![true, false]))),
        Err(DeviceError::Unconfirmed)
    );
    assert_eq!(device.state, OutputState::Unknown);
    assert_eq!(
        device.confirm_status(&Ok(Response::Bits(vec![]))),
        Err(DeviceError::Unconfirmed)
    );
    assert_eq!(
        device.confirm_status(&Ok(Response::Ack)),
        Err(DeviceError::Unconfirmed)
    );
    let failure = DispatchError::Protocol(ProtocolReason::UnexpectedReply);
    assert_eq!(
        device.confirm_status(&Err(failure)),
        Err(DeviceError::Exchange(failure))
    );
    assert_eq!(device.status(), Err(DeviceError::Unconfirmed));
}

#[test]
fn remote_operations_address_the_coil() {
    let device = MetzConnectDO4::new(10);
    assert_eq!(device.set_operation(true), Operation::write_single_coil(10, true));
    assert_eq!(device.set_operation(false), Operation::write_single_coil(10, false));
    assert_eq!(device.status_operation(), Operation::read_bits(10, 1));
}

#[test]
fn output_device_delegates_to_its_kind() {
    let mut local = OutputDevice::Local(ShiftRegister::new());
    local.set(true);
    assert_eq!(local, OutputDevice::Local(ShiftRegister { on: true }));
    assert_eq!(local.status(), Ok(true));
    let mut remote = OutputDevice::Remote(MetzConnectDO4::new(2));
    remote.set(true);
    assert_eq!(
        remote,
        OutputDevice::Remote(MetzConnectDO4 { address: 2, state: OutputState::Pending(true) })
    );
    assert_eq!(remote.status(), Err(DeviceError::Unconfirmed));
}

#[test]
fn registry_keeps_the_order_of_registration() {
    let first = OutputDevice::Remote(MetzConnectDO4::new(7));
    let second = OutputDevice::Local(ShiftRegister { on: true });
    let third = OutputDevice::Local(ShiftRegister { on: false });
    let fourth = OutputDevice::Remote(MetzConnectDO4::new(1));
    let mut registry = Registry::new();
    assert_eq!(registry.len(), 0);
    assert!(registry.iter().is_empty());
    assert_eq!(registry.register(first), 0);
    assert_eq!(registry.register(second), 1);
    assert_eq!(registry.register(third), 2);
    assert_eq!(registry.register(fourth), 3);
    assert_eq!(registry.len(), 4);
    assert_eq!(registry.iter(), &[first, second, third, fourth]);
    assert_eq!(registry.get(0), Ok(&first));
    assert_eq!(registry.get(3), Ok(&fourth));
}

#[test]
fn registry_from_devices_keeps_their_order() {
    let devices = vec![
        OutputDevice::Local(ShiftRegister { on: true }),
        OutputDevice::Remote(MetzConnectDO4::new(4)),
        OutputDevice::Local(ShiftRegister { on: true }),
        OutputDevice::Remote(MetzConnectDO4::new(0)),
        OutputDevice::Local(ShiftRegister { on: false }),
    ];
    let registry = Registry::from_devices(&devices);
    assert_eq!(registry.iter(), devices.as_slice());
    assert_eq!(Registry::from_devices(&vec![]).len(), 0);
}

#[test]
fn registry_index_out_of_bounds() {
    let mut registry = Registry::new();
    assert_eq!(registry.get(0), Err(DeviceError::OutOfBounds));
    assert_eq!(registry.status(0), Err(DeviceError::OutOfBounds));
    assert_eq!(registry.set(0, true), Err(DeviceError::OutOfBounds));
    registry.register(OutputDevice::Local(ShiftRegister::new()));
    assert_eq!(registry.get(1), Err(DeviceError::OutOfBounds));
    assert_eq!(registry.status(1), Err(DeviceError::OutOfBounds));
    assert_eq!(registry.set(1, true), Err(DeviceError::OutOfBounds));
    assert_eq!(
        registry.replace(1, OutputDevice::Local(ShiftRegister::new())),
        Err(DeviceError::OutOfBounds)
    );
    assert_eq!(registry.iter(), &[OutputDevice::Local(ShiftRegister { on: false })]);
}

#[test]
fn registry_set_changes_one_device() {
    let mut registry = Registry::from_devices(&vec![
        OutputDevice::Local(ShiftRegister::new()),
        OutputDevice::Remote(MetzConnectDO4::new(5)),
        OutputDevice::Local(ShiftRegister::new()),
    ]);
    assert_eq!(registry.set(2, true), Ok(()));
    assert_eq!(registry.status(0), Ok(false));
    assert_eq!(registry.status(2), Ok(true));
    assert_eq!(registry.set(1, true), Ok(()));
    assert_eq!(registry.status(1), Err(DeviceError::Unconfirmed));
    assert_eq!(
        registry.iter(),
        &[
            OutputDevice::Local(ShiftRegister { on: false }),
            OutputDevice::Remote(MetzConnectDO4 { address: 5, state: OutputState::Pending(true) }),
            OutputDevice::Local(ShiftRegister { on: true }),
        ]
    );
}

#[test]
fn registry_replace_puts_a_confirmed_device_back() {
    let mut registry = Registry::from_devices(&vec![
        OutputDevice::Remote(MetzConnectDO4::new(5)),
    ]);
    let mut device = match registry.get(0) {
        Ok(OutputDevice::Remote(device)) => *device,
        _ => panic!("a remote device was registered"),
    };
    device.set(true);
    assert_eq!(device.confirm_set(true, &Ok(Response::Ack)), Ok(()));
    assert_eq!(registry.replace(0, OutputDevice::Remote(device)), Ok(()));
    assert_eq!(registry.status(0), Ok(true));
}

#[test]
fn server_starts_without_devices() {
    let server = Server::new();
    assert_eq!(server.registry().len(), 0);
    assert_eq!(server.read(0), Err(DeviceError::OutOfBounds));
}

#[test]
fn server_takes_write_and_read_requests() {
    let registry = Registry::from_devices(&vec![
        OutputDevice::Local(ShiftRegister::new()),
        OutputDevice::Local(ShiftRegister::new()),
    ]);
    let mut server = Server::with_registry(registry);
    assert_eq!(server.write(1, true), Ok(None));
    assert_eq!(server.read(0), Ok(false));
    assert_eq!(server.read(1), Ok(true));
    assert_eq!(server.write(2, true), Err(DeviceError::OutOfBounds));
    assert_eq!(server.read(2), Err(DeviceError::OutOfBounds));
    assert_eq!(server.poll(2), Err(DeviceError::OutOfBounds));
    assert_eq!(server.polled(2, &Ok(Response::Ack)), Err(DeviceError::OutOfBounds));
    assert_eq!(
        server.written(2, true, &Ok(Response::Ack)),
        Err(DeviceError::OutOfBounds)
    );
    assert_eq!(
        server.registry().iter(),
        &[
            OutputDevice::Local(ShiftRegister { on: false }),
            OutputDevice::Local(ShiftRegister { on: true }),
        ]
    );
}

#[test]
fn server_write_to_a_remote_output_flows_out_and_back() {
    let registry = Registry::from_devices(&vec![
        OutputDevice::Local(ShiftRegister::new()),
        OutputDevice::Remote(MetzConnectDO4::new(3)),
    ]);
    let mut server = Server::with_registry(registry);
    assert_eq!(
        server.write(1, true),
        Ok(Some(Operation::write_single_coil(3, true)))
    );
    assert_eq!(server.read(1), Err(DeviceError::Unconfirmed));
    assert_eq!(server.written(1, true, &Ok(Response::Ack)), Ok(()));
    assert_eq!(server.read(1), Ok(true));
    assert_eq!(server.read(0), Ok(false));
    let failure = DispatchError::Transport(TransportError::Exchange(104));
    assert_eq!(server.write(1, false), Ok(Some(Operation::write_single_coil(3, false))));
    assert_eq!(
        server.written(1, false, &Err(failure)),
        Err(DeviceError::Exchange(failure))
    );
    assert_eq!(server.read(1), Err(DeviceError::Unconfirmed));
}

#[test]
fn server_poll_of_a_remote_output_flows_into_the_registry() {
    let registry = Registry::from_devices(&vec![
        OutputDevice::Local(ShiftRegister { on: true }),
        OutputDevice::Remote(MetzConnectDO4::new(3)),
    ]);
    let mut server = Server::with_registry(registry);
    assert_eq!(server.poll(0), Ok(None));
    assert_eq!(server.poll(1), Ok(Some(Operation::read_bits(3, 1))));
    assert_eq!(server.polled(1, &Ok(Response::Bits(vec![true]))), Ok(true));
    assert_eq!(server.read(1), Ok(true));
    assert_eq!(
        server.polled(1, &Ok(Response::Bits(vec![true, true]))),
        Err(DeviceError::Unconfirmed)
    );
    assert_eq!(server.read(1), Err(DeviceError::Unconfirmed));
    assert_eq!(server.polled(0, &Ok(Response::Ack)), Ok(true));
    assert_eq!(server.written(0, false, &Ok(Response::NoConfirmation)), Ok(()));
    assert_eq!(server.read(0), Ok(true));
}

#[test]
fn registry_round_trip_methods() {
    let mut registry = Registry::from_devices(&vec![
        OutputDevice::Remote(MetzConnectDO4::new(8)),
        OutputDevice::Local(ShiftRegister::new()),
    ]);
    assert_eq!(
        registry.set_operation(0, false),
        Ok(Some(Operation::write_single_coil(8, false)))
    );
    assert_eq!(registry.set_operation(1, false), Ok(None));
    assert_eq!(registry.set_operation(2, false), Err(DeviceError::OutOfBounds));
    assert_eq!(registry.status_operation(0), Ok(Some(Operation::read_bits(8, 1))));
    assert_eq!(registry.status_operation(1), Ok(None));
    assert_eq!(registry.status_operation(2), Err(DeviceError::OutOfBounds));
    assert_eq!(registry.confirm_set(0, false, &Ok(Response::Ack)), Ok(()));
    assert_eq!(registry.status(0), Ok(false));
    assert_eq!(registry.confirm_status(0, &Ok(Response::Bits(vec![true]))), Ok(true));
    assert_eq!(registry.status(0), Ok(true));
    assert_eq!(
        registry.confirm_set(2, false, &Ok(Response::Ack)),
        Err(DeviceError::OutOfBounds)
    );
    assert_eq!(
        registry.confirm_status(2, &Ok(Response::Bits(vec![true]))),
        Err(DeviceError::OutOfBounds)
    );
    assert_eq!(
        registry.iter(),
        &[
            OutputDevice::Remote(MetzConnectDO4 { address: 8, state: OutputState::Confirmed(true) }),
            OutputDevice::Local(ShiftRegister { on: false }),
        ]
    );
}

#[test]
fn output_device_round_trip_methods() {
    let mut local = OutputDevice::Local(ShiftRegister { on: true });
    assert_eq!(local.set_operation(false), None);
    assert_eq!(local.status_operation(), None);
    assert_eq!(local.confirm_set(false, &Ok(Response::Ack)), Ok(()));
    assert_eq!(local.confirm_status(&Ok(Response::Bits(vec![false]))), Ok(true));
    assert_eq!(local, OutputDevice::Local(ShiftRegister { on: true }));
    let mut remote = OutputDevice::Remote(MetzConnectDO4::new(1));
    assert_eq!(remote.set_operation(true), Some(Operation::write_single_coil(1, true)));
    assert_eq!(remote.status_operation(), Some(Operation::read_bits(1, 1)));
    assert_eq!(remote.confirm_set(true, &Ok(Response::Ack)), Ok(()));
    assert_eq!(remote.status(), Ok(true));
    assert_eq!(remote.confirm_status(&Ok(Response::Bits(vec![false]))), Ok(false));
    assert_eq!(remote.status(), Ok(false));
}
