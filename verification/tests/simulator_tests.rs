use xmz_modbus::config::{Parity, TransportConfig};
use xmz_modbus::connection::{Connection, Handshake, TransportError};
use xmz_modbus::device::{MetzConnectDO4, Outputs};
use xmz_modbus::operation::{is_supported, Operation, Rejection};
use xmz_modbus::request::{DispatchError, Request};
use xmz_modbus::response::{Reply, Response};
use xmz_modbus::simulator::{
    copy_frame, execute, read_bits_from, read_words_from, Simulator, CONNECTION_RESET,
    ILLEGAL_DATA_ADDRESS, INVALID_ARGUMENT,
};

fn serial_config() -> TransportConfig {
    TransportConfig::Rtu {
        serial_path: String::from("/dev/ttyUSB0"),
        baud_rate: 9600,
        parity: Parity::Off,
        data_bits: 8,
        stop_bits: 1,
        slave_id: 247,
    }
}

fn serial_link() -> Connection {
    let mut connection = Connection::build(serial_config()).unwrap();
    connection.connect(Handshake::Opened).unwrap();
    connection
}

fn peer() -> Simulator {
    Simulator {
        coils: vec![false; 16],
        discrete_inputs: vec![true, false, true],
        holding_registers: vec![10, 20, 30],
        input_registers: vec![1, 2, 3, 4],
        link_up: true,
        confirms: true,
    }
}

#[test]
fn write_then_read_yields_the_written_value() {
    let link = serial_link();
    for address in 0u16..16 {
        let mut device = peer();
        assert_eq!(
            execute(&link, &Operation::write_single_coil(address, true), &mut device),
            Ok(Response::Ack)
        );
        assert_eq!(
            execute(&link, &Operation::read_bits(address, 1), &mut device),
            Ok(Response::Bits(vec![true]))
        );
        assert_eq!(
            execute(&link, &Operation::write_single_coil(address, false), &mut device),
            Ok(Response::Ack)
        );
        assert_eq!(
            execute(&link, &Operation::read_bits(address, 1), &mut device),
            Ok(Response::Bits(vec![false]))
        );
    }
}

#[test]
fn write_changes_one_coil() {
    let link = serial_link();
    let mut device = peer();
    assert_eq!(
        execute(&link, &Operation::write_single_coil(10, true), &mut device),
        Ok(Response::Ack)
    );
    let mut expected = peer();
    expected.coils[10] = true;
    assert_eq!(device, expected);
    let mut bits = vec![false; 16];
    bits[10] = true;
    assert_eq!(
        execute(&link, &Operation::read_bits(0, 16), &mut device),
        Ok(Response::Bits(bits))
    );
}

#[test]
fn unsupported_code_reaches_no_peer() {
    let link = serial_link();
    for code in 0u8..=255 {
        if is_supported(code) {
            continue;
        }
        let mut device = peer();
        let operation = Operation { function_code: code, address: 10, argument: 1 };
        assert_eq!(
            execute(&link, &operation, &mut device),
            Err(DispatchError::Unsupported(code))
        );
        assert_eq!(device, peer());
    }
}

#[test]
fn too_large_quantity_reaches_no_peer() {
    let link = serial_link();
    let mut device = peer();
    device.input_registers = vec![0; 200];
    let before = device.clone();
    assert_eq!(
        execute(&link, &Operation::read_input_registers(0, 126), &mut device),
        Err(DispatchError::Rejected(Rejection::QuantityTooLarge))
    );
    assert_eq!(device, before);
    assert_eq!(
        execute(&link, &Operation::read_input_registers(0, 125), &mut device),
        Ok(Response::Registers(vec![0; 125]))
    );
}

#[test]
fn unconnected_link_reaches_no_peer() {
    let link = Connection::build(serial_config()).unwrap();
    let mut device = peer();
    assert_eq!(
        execute(&link, &Operation::write_single_coil(0, true), &mut device),
        Err(DispatchError::Rejected(Rejection::NotConnected))
    );
    assert_eq!(device, peer());
}

#[test]
fn read_input_registers_from_the_simulated_device() {
    let link = serial_link();
    let mut device = peer();
    assert_eq!(
        execute(&link, &Operation::read_input_registers(0, 4), &mut device),
        Ok(Response::Registers(vec![1, 2, 3, 4]))
    );
    assert_eq!(
        execute(&link, &Operation::read_input_registers(1, 2), &mut device),
        Ok(Response::Registers(vec![2, 3]))
    );
    assert_eq!(
        execute(&link, &Operation::read_registers(0, 3), &mut device),
        Ok(Response::Registers(vec![10, 20, 30]))
    );
    assert_eq!(
        execute(&link, &Operation::read_input_bits(0, 3), &mut device),
        Ok(Response::Bits(vec![true, false, true]))
    );
    assert_eq!(device, peer());
}

#[test]
fn write_single_coil_against_the_simulated_device() {
    let link = serial_link();
    let mut device = peer();
    assert_eq!(
        execute(&link, &Operation::write_single_coil(10, true), &mut device),
        Ok(Response::Ack)
    );
    let mut dropped = peer();
    dropped.link_up = false;
    assert_eq!(
        execute(&link, &Operation::write_single_coil(10, true), &mut dropped),
        Err(DispatchError::Transport(TransportError::Exchange(CONNECTION_RESET)))
    );
    assert_eq!(dropped.coils, vec![false; 16]);
}

#[test]
fn diagnostic_against_a_silent_device() {
    let link = serial_link();
    let mut silent = peer();
    silent.confirms = false;
    assert_eq!(
        execute(&link, &Operation::raw_diagnostic(0x0001, 0x0034), &mut silent),
        Ok(Response::NoConfirmation)
    );
    let mut device = peer();
    assert_eq!(
        execute(&link, &Operation::raw_diagnostic(0x0001, 0x0034), &mut device),
        Ok(Response::Raw { bytes: vec![247, 8, 0, 1, 0, 0x34], length: 6 })
    );
}

#[test]
fn address_beyond_the_tables_is_an_exception() {
    let link = serial_link();
    let mut device = peer();
    let exception = Err(DispatchError::Transport(TransportError::Exchange(
        ILLEGAL_DATA_ADDRESS,
    )));
    assert_eq!(
        execute(&link, &Operation::write_single_coil(16, true), &mut device),
        exception
    );
    assert_eq!(execute(&link, &Operation::read_bits(15, 2), &mut device), exception);
    assert_eq!(
        execute(&link, &Operation::read_input_registers(4, 1), &mut device),
        exception
    );
    assert_eq!(
        execute(&link, &Operation::read_input_registers(4, 0), &mut device),
        Ok(Response::Registers(vec![]))
    );
    assert_eq!(device, peer());
}

#[test]
fn exchange_answers_requests_as_they_stand() {
    let mut device = peer();
    assert_eq!(
        device.exchange(&Request::ReadInputBits { address: 1, quantity: 2 }),
        Reply::Bits { count: 2, cells: vec![0, 1] }
    );
    assert_eq!(
        device.exchange(&Request::ReadRegisters { address: 2, quantity: 1 }),
        Reply::Registers { count: 1, words: vec![30] }
    );
    assert_eq!(
        device.exchange(&Request::WriteSingleCoil { address: 0, value: true }),
        Reply::Written
    );
    assert_eq!(
        device.exchange(&Request::Raw { frame: vec![1] }),
        Reply::Failed(INVALID_ARGUMENT)
    );
    assert_eq!(
        device.exchange(&Request::Raw { frame: vec![0; 255] }),
        Reply::Failed(INVALID_ARGUMENT)
    );
    assert_eq!(
        device.exchange(&Request::Raw { frame: vec![1, 8] }),
        Reply::Confirmation { length: 2, bytes: vec![1, 8] }
    );
    device.link_up = false;
    assert_eq!(
        device.exchange(&Request::ReadBits { address: 0, quantity: 1 }),
        Reply::Failed(CONNECTION_RESET)
    );
}

#[test]
fn table_readers() {
    assert_eq!(
        read_bits_from(&vec![true, true, false], 1, 2),
        Reply::Bits { count: 2, cells: vec![1, 0] }
    );
    assert_eq!(
        read_bits_from(&vec![true, true, false], 2, 2),
        Reply::Failed(ILLEGAL_DATA_ADDRESS)
    );
    assert_eq!(
        read_words_from(&vec![5, 6, 7], 0, 3),
        Reply::Registers { count: 3, words: vec![5, 6, 7] }
    );
    assert_eq!(
        read_words_from(&vec![5, 6, 7], 65535, 65535),
        Reply::Failed(ILLEGAL_DATA_ADDRESS)
    );
    assert_eq!(copy_frame(&vec![9, 8, 7]), vec![9, 8, 7]);
}

#[test]
fn with_coils_builds_a_device_that_answers() {
    let device = Simulator::with_coils(vec![true, false]);
    assert_eq!(
        device,
        Simulator {
            coils: vec![true, false],
            discrete_inputs: vec![],
            holding_registers: vec![],
            input_registers: vec![],
            link_up: true,
            confirms: true,
        }
    );
}

#[test]
fn remote_output_round_trip_through_the_simulated_device() {
    let link = serial_link();
    let mut module = Simulator::with_coils(vec![false; 4]);
    let mut output = MetzConnectDO4::new(2);
    output.set(true);
    let written = execute(&link, &output.set_operation(true), &mut module);
    assert_eq!(output.confirm_set(true, &written), Ok(()));
    assert_eq!(output.status(), Ok(true));
    assert_eq!(module.coils, vec![false, false, true, false]);
    let read = execute(&link, &output.status_operation(), &mut module);
    assert_eq!(output.confirm_status(&read), Ok(true));
    module.link_up = false;
    let lost = execute(&link, &output.status_operation(), &mut module);
    assert!(output.confirm_status(&lost).is_err());
    assert!(output.status().is_err());
}
