//! Transport configuration: how a Modbus peer is reached, and the rules a
//! configuration has to meet before a connection is built from it.

use vstd::prelude::*;

verus! {

/// Lowest slave id that addresses a single device on a serial line.
pub const MIN_SLAVE_ID: u8 = 1;

/// Highest slave id that addresses a single device on a serial line.
pub const MAX_SLAVE_ID: u8 = 247;

/// Highest baud rate the serial backend can be handed.
pub const MAX_BAUD_RATE: u32 = 0x7fff_ffff;

/// Longest character, in bits, that Modbus serial framing knows: one start
/// bit, eight data bits, one parity bit and one stop bit.
pub const MAX_FRAME_BITS: u8 = 11;

/// Parity bit of a serial character.
#[derive(Clone, Copy, Debug, PartialEq, Eq, Structural)]
pub enum Parity {
    /// No parity bit is sent (letter `N`).
    Off,
    /// Odd parity (letter `O`).
    Odd,
    /// Even parity (letter `E`).
    Even,
}

/// A field of a transport configuration, as named in errors.
#[derive(Clone, Copy, Debug, PartialEq, Eq, Structural)]
pub enum ConfigField {
    SerialPath,
    BaudRate,
    Parity,
    DataBits,
    StopBits,
    SlaveId,
    Host,
    Service,
}

/// Why a transport configuration was refused.
#[derive(Clone, Copy, Debug, PartialEq, Eq, Structural)]
pub enum ConfigError {
    /// The named field holds a value outside its legal set.
    OutOfRange(ConfigField),
    /// Each named field is legal by itself, but together they describe a
    /// serial character that cannot be framed.
    Incompatible(ConfigField, ConfigField, ConfigField),
}

/// How to reach a Modbus peer.
#[derive(Clone, Debug, PartialEq, Eq)]
pub enum TransportConfig {
    /// Serial line, RTU framing.
    Rtu {
        serial_path: String,
        baud_rate: u32,
        parity: Parity,
        data_bits: u8,
        stop_bits: u8,
        slave_id: u8,
    },
    /// TCP over IPv4.
    Tcp { host: String, port: u16 },
    /// Protocol independent TCP: host and service are resolved by name.
    TcpPi { host: String, service: String },
}

/// Number of bits the parity setting adds to a character.
pub open spec fn parity_bits(parity: Parity) -> int {
    if parity == Parity::Off {
        0
    } else {
        1
    }
}

/// Length in bits of one serial character: the start bit, the data bits,
/// the parity bit if there is one, and the stop bits.
pub open spec fn frame_bits(parity: Parity, data_bits: u8, stop_bits: u8) -> int {
    1 + data_bits + parity_bits(parity) + stop_bits
}

/// Whether a text can name a device, a host or a service: it is not
/// empty and holds no NUL character.
pub open spec fn usable_text(text: Seq<char>) -> bool {
    text.len() > 0 && forall|i: int| 0 <= i < text.len() ==> text[i] != '\0'
}

/// The first rule that the serial settings break, if any. Fields are
/// looked at in the order in which the configuration lists them; the
/// length of the character is looked at last.
pub open spec fn serial_error(
    path: Seq<char>,
    baud_rate: u32,
    parity: Parity,
    data_bits: u8,
    stop_bits: u8,
    slave_id: u8,
) -> Option<ConfigError> {
    if !usable_text(path) {
        Some(ConfigError::OutOfRange(ConfigField::SerialPath))
    } else if !(1 <= baud_rate <= MAX_BAUD_RATE) {
        Some(ConfigError::OutOfRange(ConfigField::BaudRate))
    } else if !(5 <= data_bits <= 8) {
        Some(ConfigError::OutOfRange(ConfigField::DataBits))
    } else if stop_bits > 2 {
        Some(ConfigError::OutOfRange(ConfigField::StopBits))
    } else if !(MIN_SLAVE_ID <= slave_id <= MAX_SLAVE_ID) {
        Some(ConfigError::OutOfRange(ConfigField::SlaveId))
    } else if frame_bits(parity, data_bits, stop_bits) > MAX_FRAME_BITS {
        Some(
            ConfigError::Incompatible(
                ConfigField::Parity,
                ConfigField::DataBits,
                ConfigField::StopBits,
            ),
        )
    } else {
        None
    }
}

impl TransportConfig {
    /// The first rule that this configuration breaks, if any.
    pub open spec fn spec_error(&self) -> Option<ConfigError> {
        match self {
            TransportConfig::Rtu {
                serial_path,
                baud_rate,
                parity,
                data_bits,
                stop_bits,
                slave_id,
            } => serial_error(
                serial_path@,
                *baud_rate,
                *parity,
                *data_bits,
                *stop_bits,
                *slave_id,
            ),
            TransportConfig::Tcp { host, port } => if !usable_text(host@) {
                Some(ConfigError::OutOfRange(ConfigField::Host))
            } else {
                None
            },
            TransportConfig::TcpPi { host, service } => if !usable_text(host@) {
                Some(ConfigError::OutOfRange(ConfigField::Host))
            } else if !usable_text(service@) {
                Some(ConfigError::OutOfRange(ConfigField::Service))
            } else {
                None
            },
        }
    }

    /// A configuration is valid when it breaks no rule.
    pub open spec fn spec_valid(&self) -> bool {
        self.spec_error() is None
    }

    /// The slave id that requests on this transport carry: the configured
    /// one on a serial line and none otherwise.
    pub open spec fn spec_slave_id(&self) -> Option<u8> {
        match self {
            TransportConfig::Rtu { slave_id, .. } => Some(*slave_id),
            _ => None,
        }
    }

    /// Checks every field against its legal set, and the serial settings
    /// against each other. Nothing outside the configuration is touched.
    pub fn validate(&self) -> (result: Result<(), ConfigError>)
        ensures
            result is Ok <==> self.spec_valid(),
            result is Err ==> Some(result->Err_0) == self.spec_error(),
    {
        match self {
            TransportConfig::Rtu {
                serial_path,
                baud_rate,
                parity,
                data_bits,
                stop_bits,
                slave_id,
            } => {
                if !is_usable_text(serial_path.as_str()) {
                    Err(ConfigError::OutOfRange(ConfigField::SerialPath))
                } else if *baud_rate < 1 || *baud_rate > MAX_BAUD_RATE {
                    Err(ConfigError::OutOfRange(ConfigField::BaudRate))
                } else if *data_bits < 5 || *data_bits > 8 {
                    Err(ConfigError::OutOfRange(ConfigField::DataBits))
                } else if *stop_bits > 2 {
                    Err(ConfigError::OutOfRange(ConfigField::StopBits))
                } else if *slave_id < MIN_SLAVE_ID || *slave_id > MAX_SLAVE_ID {
                    Err(ConfigError::OutOfRange(ConfigField::SlaveId))
                } else if frame_length(*parity, *data_bits, *stop_bits) > MAX_FRAME_BITS {
                    Err(
                        ConfigError::Incompatible(
                            ConfigField::Parity,
                            ConfigField::DataBits,
                            ConfigField::StopBits,
                        ),
                    )
                } else {
                    Ok(())
                }
            },
            TransportConfig::Tcp { host, port } => {
                if !is_usable_text(host.as_str()) {
                    Err(ConfigError::OutOfRange(ConfigField::Host))
                } else {
                    Ok(())
                }
            },
            TransportConfig::TcpPi { host, service } => {
                if !is_usable_text(host.as_str()) {
                    Err(ConfigError::OutOfRange(ConfigField::Host))
                } else if !is_usable_text(service.as_str()) {
                    Err(ConfigError::OutOfRange(ConfigField::Service))
                } else {
                    Ok(())
                }
            },
        }
    }
}

/// Whether a text can name a device, a host or a service.
pub fn is_usable_text(text: &str) -> (usable: bool)
    ensures
        usable == usable_text(text@),
{
    let length = text.unicode_len();
    if length == 0 {
        return false;
    }
    let mut i: usize = 0;
    while i < length
        invariant
            i <= length,
            length == text@.len(),
            forall|j: int| 0 <= j < i ==> text@[j] != '\0',
        decreases length - i,
    {
        if text.get_char(i) == '\0' {
            return false;
        }
        i += 1;
    }
    true
}

/// Length in bits of one serial character with the given settings.
pub fn frame_length(parity: Parity, data_bits: u8, stop_bits: u8) -> (bits: u8)
    requires
        data_bits <= 8,
        stop_bits <= 2,
    ensures
        bits == frame_bits(parity, data_bits, stop_bits),
{
    let parity_bit: u8 = match parity {
        Parity::Off => 0,
        Parity::Odd => 1,
        Parity::Even => 1,
    };
    1 + data_bits + parity_bit + stop_bits
}

/// Reads a parity setting from its letter: `N`, `O` or `E`.
pub fn parity_from_letter(letter: char) -> (result: Result<Parity, ConfigError>)
    ensures
        letter == 'N' ==> result == Ok::<Parity, ConfigError>(Parity::Off),
        letter == 'O' ==> result == Ok::<Parity, ConfigError>(Parity::Odd),
        letter == 'E' ==> result == Ok::<Parity, ConfigError>(Parity::Even),
        letter != 'N' && letter != 'O' && letter != 'E' ==> result == Err::<Parity, ConfigError>(
            ConfigError::OutOfRange(ConfigField::Parity),
        ),
{
    if letter == 'N' {
        Ok(Parity::Off)
    } else if letter == 'O' {
        Ok(Parity::Odd)
    } else if letter == 'E' {
        Ok(Parity::Even)
    } else {
        Err(ConfigError::OutOfRange(ConfigField::Parity))
    }
}

/// The letter that stands for a parity setting.
pub fn parity_letter(parity: Parity) -> (letter: char)
    ensures
        parity == Parity::Off ==> letter == 'N',
        parity == Parity::Odd ==> letter == 'O',
        parity == Parity::Even ==> letter == 'E',
{
    match parity {
        Parity::Off => 'N',
        Parity::Odd => 'O',
        Parity::Even => 'E',
    }
}

} // verus!
