//! The names under which an operator refers to backends and function
//! codes.

use vstd::prelude::*;
use crate::operation::{
    DIAGNOSTIC,
    READ_BITS,
    READ_INPUT_BITS,
    READ_INPUT_REGISTERS,
    READ_REGISTERS,
    WRITE_SINGLE_COIL,
};

verus! {

/// The kind of transport.
#[derive(Clone, Copy, Debug, PartialEq, Eq, Structural)]
pub enum Backend {
    /// Serial line, named `rtu`.
    Rtu,
    /// TCP over IPv4, named `tcp`.
    Tcp,
    /// Protocol independent TCP, named `tcppi`.
    TcpPi,
}

/// The backend that a name stands for, if it stands for one.
pub open spec fn spec_backend(name: Seq<char>) -> Option<Backend> {
    if name == "rtu"@ {
        Some(Backend::Rtu)
    } else if name == "tcp"@ {
        Some(Backend::Tcp)
    } else if name == "tcppi"@ {
        Some(Backend::TcpPi)
    } else {
        None
    }
}

/// The function code that a name stands for, if it stands for one. Each
/// code has three names: its number in hexadecimal, its number in decimal,
/// and a word.
pub open spec fn spec_function_code(name: Seq<char>) -> Option<u8> {
    if name == "0x01"@ || name == "1"@ || name == "read_bits"@ {
        Some(READ_BITS)
    } else if name == "0x02"@ || name == "2"@ || name == "read_input_bits"@ {
        Some(READ_INPUT_BITS)
    } else if name == "0x03"@ || name == "3"@ || name == "read_registers"@ {
        Some(READ_REGISTERS)
    } else if name == "0x04"@ || name == "4"@ || name == "read_input_registers"@ {
        Some(READ_INPUT_REGISTERS)
    } else if name == "0x05"@ || name == "5"@ || name == "write_bit"@ {
        Some(WRITE_SINGLE_COIL)
    } else if name == "0x08"@ || name == "8"@ || name == "diagnostic"@ {
        Some(DIAGNOSTIC)
    } else {
        None
    }
}

/// Whether two texts hold the same characters.
pub fn same_text(left: &str, right: &str) -> (same: bool)
    ensures
        same == (left@ == right@),
{
    let length = left.unicode_len();
    if right.unicode_len() != length {
        return false;
    }
    let mut i: usize = 0;
    while i < length
        invariant
            i <= length,
            length == left@.len(),
            length == right@.len(),
            forall|j: int| 0 <= j < i ==> left@[j] == right@[j],
        decreases length - i,
    {
        if left.get_char(i) != right.get_char(i) {
            return false;
        }
        i += 1;
    }
    assert(left@ =~= right@);
    true
}

/// Reads a backend from its name.
pub fn backend_from_name(name: &str) -> (backend: Option<Backend>)
    ensures
        backend == spec_backend(name@),
{
    if same_text(name, "rtu") {
        Some(Backend::Rtu)
    } else if same_text(name, "tcp") {
        Some(Backend::Tcp)
    } else if same_text(name, "tcppi") {
        Some(Backend::TcpPi)
    } else {
        None
    }
}

/// Reads a function code from one of its names.
pub fn function_code_from_name(name: &str) -> (code: Option<u8>)
    ensures
        code == spec_function_code(name@),
{
    if same_text(name, "0x01") || same_text(name, "1") || same_text(name, "read_bits") {
        Some(READ_BITS)
    } else if same_text(name, "0x02") || same_text(name, "2") || same_text(
        name,
        "read_input_bits",
    ) {
        Some(READ_INPUT_BITS)
    } else if same_text(name, "0x03") || same_text(name, "3") || same_text(
        name,
        "read_registers",
    ) {
        Some(READ_REGISTERS)
    } else if same_text(name, "0x04") || same_text(name, "4") || same_text(
        name,
        "read_input_registers",
    ) {
        Some(READ_INPUT_REGISTERS)
    } else if same_text(name, "0x05") || same_text(name, "5") || same_text(name, "write_bit") {
        Some(WRITE_SINGLE_COIL)
    } else if same_text(name, "0x08") || same_text(name, "8") || same_text(name, "diagnostic") {
        Some(DIAGNOSTIC)
    } else {
        None
    }
}

} // verus!
