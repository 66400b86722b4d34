//! Operations: what a caller asks of a Modbus peer, and the rules an
//! operation has to meet before a request is made of it.

use vstd::prelude::*;

verus! {

/// Function code of a read of coils.
pub const READ_BITS: u8 = 0x01;

/// Function code of a read of discrete inputs.
pub const READ_INPUT_BITS: u8 = 0x02;

/// Function code of a read of holding registers.
pub const READ_REGISTERS: u8 = 0x03;

/// Function code of a read of input registers.
pub const READ_INPUT_REGISTERS: u8 = 0x04;

/// Function code of a write of one coil.
pub const WRITE_SINGLE_COIL: u8 = 0x05;

/// Function code of a diagnostic exchange.
pub const DIAGNOSTIC: u8 = 0x08;

/// Most coils or discrete inputs that one request may read.
pub const MAX_READ_BITS: u16 = 2000;

/// Most registers that one request may read.
pub const MAX_READ_REGISTERS: u16 = 125;

/// Number of addresses in the 16-bit address space.
pub const ADDRESS_SPACE: u32 = 0x1_0000;

/// A request descriptor. For the reads `argument` is the quantity to read;
/// for the write of one coil it is the value, where zero is off and any
/// other number is on; for a diagnostic exchange `address` is the
/// sub-function and `argument` the data word.
#[derive(Clone, Copy, Debug, PartialEq, Eq, Structural)]
pub struct Operation {
    pub function_code: u8,
    pub address: u16,
    pub argument: u16,
}

/// Why an operation of a supported kind was turned down before anything
/// was sent.
#[derive(Clone, Copy, Debug, PartialEq, Eq, Structural)]
pub enum Rejection {
    /// The connection is not connected.
    NotConnected,
    /// More values were asked for than one request may read.
    QuantityTooLarge,
    /// The last address asked for lies beyond the address space.
    AddressOverflow,
}

/// Whether the function code is one the dispatcher knows.
pub open spec fn spec_supported(code: u8) -> bool {
    code == READ_BITS || code == READ_INPUT_BITS || code == READ_REGISTERS || code
        == READ_INPUT_REGISTERS || code == WRITE_SINGLE_COIL || code == DIAGNOSTIC
}

/// Whether the function code reads coils or discrete inputs.
pub open spec fn spec_reads_bits(code: u8) -> bool {
    code == READ_BITS || code == READ_INPUT_BITS
}

/// Whether the function code reads holding or input registers.
pub open spec fn spec_reads_registers(code: u8) -> bool {
    code == READ_REGISTERS || code == READ_INPUT_REGISTERS
}

/// Most values that one request with this function code may read.
pub open spec fn spec_max_quantity(code: u8) -> int {
    if spec_reads_bits(code) {
        MAX_READ_BITS as int
    } else {
        MAX_READ_REGISTERS as int
    }
}

impl Operation {
    /// Whether the operation is a read of either kind.
    pub open spec fn spec_is_read(&self) -> bool {
        spec_reads_bits(self.function_code) || spec_reads_registers(self.function_code)
    }

    /// The first rule that a supported operation breaks on a connection
    /// that is connected or not, if any.
    pub open spec fn spec_rejection(&self, connected: bool) -> Option<Rejection> {
        if !connected {
            Some(Rejection::NotConnected)
        } else if self.spec_is_read() && self.argument > spec_max_quantity(self.function_code) {
            Some(Rejection::QuantityTooLarge)
        } else if self.spec_is_read() && self.address + self.argument > ADDRESS_SPACE {
            Some(Rejection::AddressOverflow)
        } else {
            None
        }
    }

    /// The value that a write of one coil carries.
    pub open spec fn spec_coil_value(&self) -> bool {
        self.argument != 0
    }

    /// The write of `value` to the coil at `address`.
    pub open spec fn spec_write_single_coil(address: u16, value: bool) -> Operation {
        Operation {
            function_code: WRITE_SINGLE_COIL,
            address,
            argument: if value {
                1u16
            } else {
                0u16
            },
        }
    }

    /// The read of `quantity` coils from `address` on.
    pub open spec fn spec_read_bits(address: u16, quantity: u16) -> Operation {
        Operation { function_code: READ_BITS, address, argument: quantity }
    }

    /// A read of `quantity` coils from `address` on.
    pub fn read_bits(address: u16, quantity: u16) -> (operation: Operation)
        ensures
            operation == Operation::spec_read_bits(address, quantity),
    {
        Operation { function_code: READ_BITS, address, argument: quantity }
    }

    /// A read of `quantity` discrete inputs from `address` on.
    pub fn read_input_bits(address: u16, quantity: u16) -> (operation: Operation)
        ensures
            operation == (Operation {
                function_code: READ_INPUT_BITS,
                address,
                argument: quantity,
            }),
    {
        Operation { function_code: READ_INPUT_BITS, address, argument: quantity }
    }

    /// A read of `quantity` holding registers from `address` on.
    pub fn read_registers(address: u16, quantity: u16) -> (operation: Operation)
        ensures
            operation == (Operation {
                function_code: READ_REGISTERS,
                address,
                argument: quantity,
            }),
    {
        Operation { function_code: READ_REGISTERS, address, argument: quantity }
    }

    /// A read of `quantity` input registers from `address` on.
    pub fn read_input_registers(address: u16, quantity: u16) -> (operation: Operation)
        ensures
            operation == (Operation {
                function_code: READ_INPUT_REGISTERS,
                address,
                argument: quantity,
            }),
    {
        Operation { function_code: READ_INPUT_REGISTERS, address, argument: quantity }
    }

    /// A write of `value` to the coil at `address`.
    pub fn write_single_coil(address: u16, value: bool) -> (operation: Operation)
        ensures
            operation == Operation::spec_write_single_coil(address, value),
            operation.spec_coil_value() == value,
    {
        let argument: u16 = if value {
            1
        } else {
            0
        };
        Operation { function_code: WRITE_SINGLE_COIL, address, argument }
    }

    /// A diagnostic exchange with the given sub-function and data word.
    pub fn raw_diagnostic(sub_function: u16, data: u16) -> (operation: Operation)
        ensures
            operation == (Operation {
                function_code: DIAGNOSTIC,
                address: sub_function,
                argument: data,
            }),
    {
        Operation { function_code: DIAGNOSTIC, address: sub_function, argument: data }
    }

    /// Looks for the first rule that this operation, of a supported kind,
    /// breaks.
    pub fn check(&self, connected: bool) -> (result: Result<(), Rejection>)
        ensures
            result is Ok <==> self.spec_rejection(connected) is None,
            result is Err ==> Some(result->Err_0) == self.spec_rejection(connected),
    {
        if !connected {
            return Err(Rejection::NotConnected);
        }
        let code = self.function_code;
        let reads_bits = code == READ_BITS || code == READ_INPUT_BITS;
        let reads_registers = code == READ_REGISTERS || code == READ_INPUT_REGISTERS;
        if reads_bits || reads_registers {
            let most: u16 = if reads_bits {
                MAX_READ_BITS
            } else {
                MAX_READ_REGISTERS
            };
            if self.argument > most {
                return Err(Rejection::QuantityTooLarge);
            }
            let address: u32 = self.address as u32;
            let quantity: u32 = self.argument as u32;
            if address + quantity > ADDRESS_SPACE {
                return Err(Rejection::AddressOverflow);
            }
        }
        Ok(())
    }
}

/// Whether the function code is one the dispatcher knows.
pub fn is_supported(code: u8) -> (supported: bool)
    ensures
        supported == spec_supported(code),
{
    code == READ_BITS || code == READ_INPUT_BITS || code == READ_REGISTERS || code
        == READ_INPUT_REGISTERS || code == WRITE_SINGLE_COIL || code == DIAGNOSTIC
}

} // verus!
