//! The life cycle of one Modbus link: built from a valid configuration,
//! connected once, then used for requests.

use vstd::prelude::*;
use crate::config::{ConfigError, TransportConfig};

verus! {

/// A failure of the transport itself, with the operating system's error
/// number where one was reported and zero where none was.
#[derive(Clone, Copy, Debug, PartialEq, Eq, Structural)]
pub enum TransportError {
    /// The serial device could not be opened or the socket not established.
    Connect(i32),
    /// The link failed while a request was sent or its answer awaited.
    Exchange(i32),
}

/// Where a connection stands in its life cycle.
#[derive(Clone, Copy, Debug, PartialEq, Eq, Structural)]
pub enum LinkState {
    /// Built, the handshake not yet tried.
    Built,
    /// The handshake succeeded: requests may be issued.
    Connected,
    /// The handshake failed: the connection has to be rebuilt.
    Failed,
}

/// What the backend reported of the handshake.
#[derive(Clone, Copy, Debug, PartialEq, Eq, Structural)]
pub enum Handshake {
    /// The device is open and configured, or the socket established.
    Opened,
    /// The backend failed, with the operating system's error number.
    Refused(i32),
}

/// Why a connection could not be opened.
#[derive(Clone, Copy, Debug, PartialEq, Eq, Structural)]
pub enum OpenError {
    /// The configuration was refused; the backend was never asked.
    Config(ConfigError),
    /// The configuration was accepted and the handshake failed.
    Transport(TransportError),
}

/// One Modbus link: its configuration, its debug flag and its state.
#[derive(Debug, PartialEq, Eq)]
pub struct Connection {
    config: TransportConfig,
    debug: bool,
    state: LinkState,
}

impl Connection {
    /// The configuration this connection was built from.
    pub closed spec fn spec_config(&self) -> TransportConfig {
        self.config
    }

    /// Whether wire tracing is switched on.
    pub closed spec fn spec_debug(&self) -> bool {
        self.debug
    }

    /// Where the connection stands in its life cycle.
    pub closed spec fn spec_state(&self) -> LinkState {
        self.state
    }

    /// Every connection holds a valid configuration.
    #[verifier::type_invariant]
    pub closed spec fn well_formed(&self) -> bool {
        self.config.spec_valid()
    }

    /// Builds a connection from a configuration, or refuses the
    /// configuration with the first rule it breaks. No resource is touched.
    pub fn build(config: TransportConfig) -> (result: Result<Connection, ConfigError>)
        ensures
            result is Ok <==> config.spec_valid(),
            result is Ok ==> {
                &&& result->Ok_0.spec_config() == config
                &&& !result->Ok_0.spec_debug()
                &&& result->Ok_0.spec_state() == LinkState::Built
            },
            result is Err ==> Some(result->Err_0) == config.spec_error(),
    {
        match config.validate() {
            Ok(()) => Ok(Connection { config, debug: false, state: LinkState::Built }),
            Err(error) => Err(error),
        }
    }

    /// Switches wire tracing on or off. Nothing else changes.
    pub fn set_debug(&mut self, flag: bool)
        ensures
            final(self).spec_debug() == flag,
            final(self).spec_config() == old(self).spec_config(),
            final(self).spec_state() == old(self).spec_state(),
    {
        proof {
            use_type_invariant(&*self);
        }
        self.debug = flag;
    }

    /// Records the outcome of the handshake. It is tried once in the life
    /// of a connection: a connection that is connected or has failed is not
    /// handed to this function again.
    pub fn connect(&mut self, handshake: Handshake) -> (result: Result<(), TransportError>)
        requires
            old(self).spec_state() == LinkState::Built,
        ensures
            final(self).spec_config() == old(self).spec_config(),
            final(self).spec_debug() == old(self).spec_debug(),
            handshake == Handshake::Opened ==> result is Ok && final(self).spec_state()
                == LinkState::Connected,
            handshake matches Handshake::Refused(code) ==> result == Err::<(), TransportError>(
                TransportError::Connect(code),
            ) && final(self).spec_state() == LinkState::Failed,
    {
        proof {
            use_type_invariant(&*self);
        }
        match handshake {
            Handshake::Opened => {
                self.state = LinkState::Connected;
                Ok(())
            },
            Handshake::Refused(code) => {
                self.state = LinkState::Failed;
                Err(TransportError::Connect(code))
            },
        }
    }

    /// Whether wire tracing is switched on.
    pub fn debug(&self) -> (flag: bool)
        ensures
            flag == self.spec_debug(),
    {
        self.debug
    }

    /// Where the connection stands in its life cycle.
    pub fn state(&self) -> (state: LinkState)
        ensures
            state == self.spec_state(),
    {
        self.state
    }

    /// Whether requests may be issued.
    pub fn is_connected(&self) -> (connected: bool)
        ensures
            connected == (self.spec_state() == LinkState::Connected),
    {
        self.state == LinkState::Connected
    }

    /// The configuration this connection was built from.
    pub fn config(&self) -> (config: &TransportConfig)
        ensures
            *config == self.spec_config(),
            config.spec_valid(),
    {
        proof {
            use_type_invariant(self);
        }
        &self.config
    }

    /// The slave id that requests on this connection carry, if the
    /// transport has one.
    pub fn slave_id(&self) -> (id: Option<u8>)
        ensures
            id == self.spec_config().spec_slave_id(),
    {
        match &self.config {
            TransportConfig::Rtu { slave_id, .. } => Some(*slave_id),
            _ => None,
        }
    }
}

/// Why a connection is not opened, if it is not: a rule that the
/// configuration breaks comes first, the failed handshake second.
pub open spec fn spec_open_error(config: TransportConfig, handshake: Handshake) -> Option<
    OpenError,
> {
    match config.spec_error() {
        Some(error) => Some(OpenError::Config(error)),
        None => match handshake {
            Handshake::Opened => None,
            Handshake::Refused(code) => Some(OpenError::Transport(TransportError::Connect(code))),
        },
    }
}

/// Builds a connection and records the handshake in one step.
pub fn open(config: TransportConfig, handshake: Handshake) -> (result: Result<
    Connection,
    OpenError,
>)
    ensures
        result is Ok <==> spec_open_error(config, handshake) is None,
        result is Err ==> Some(result->Err_0) == spec_open_error(config, handshake),
        result is Ok ==> {
            &&& result->Ok_0.spec_config() == config
            &&& result->Ok_0.spec_state() == LinkState::Connected
            &&& !result->Ok_0.spec_debug()
        },
{
    match Connection::build(config) {
        Err(error) => Err(OpenError::Config(error)),
        Ok(mut connection) => match connection.connect(handshake) {
            Ok(()) => Ok(connection),
            Err(error) => Err(OpenError::Transport(error)),
        },
    }
}

} // verus!
