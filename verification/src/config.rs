//! Run configuration: the target, the shape of the fleet and the transport.

use vstd::prelude::*;

verus! {

/// Number of connections when none is asked for.
pub const DEFAULT_CONNECTIONS: usize = 1;

/// Payload length in bytes when none is asked for.
pub const DEFAULT_LENGTH: usize = 16;

/// Packets per second and connection when no rate is asked for.
pub const DEFAULT_RATE: usize = 1;

/// Local port of the first connection when none is asked for.
pub const DEFAULT_START_PORT: usize = 8000;

/// Stagger delay between launches, in milliseconds, when none is asked for.
pub const DEFAULT_STAGGER_MILLIS: u64 = 50;

/// Chooses the size of the scheduler's thread pool.
///
/// A positive request is taken as it is. With no request, or a request for
/// zero threads, the choice is left to the scheduler, which uses one thread
/// per CPU core.
pub fn worker_threads(requested: Option<usize>) -> (workers: Option<usize>)
    ensures
        workers == match requested {
            Some(count) if count > 0 => Some(count),
            _ => None::<usize>,
        },
{
    match requested {
        Some(count) => if count > 0 {
            Some(count)
        } else {
            None
        },
        None => None,
    }
}

/// The four ways a connection can reach the target.
#[derive(Clone, Copy, Debug, PartialEq, Eq, Structural)]
pub enum TransportMode {
    /// Connected datagram socket, no security layer.
    Udp,
    /// Stream socket, no security layer.
    Tcp,
    /// Datagram socket carrying a DTLS session.
    Dtls,
    /// Stream socket carrying a TLS session.
    Tls,
}

impl TransportMode {
    /// The mode that a pair of flags selects.
    pub open spec fn select(udp: bool, secure: bool) -> TransportMode {
        if secure {
            if udp {
                TransportMode::Dtls
            } else {
                TransportMode::Tls
            }
        } else if udp {
            TransportMode::Udp
        } else {
            TransportMode::Tcp
        }
    }

    /// Whether the mode layers DTLS or TLS over the socket.
    pub open spec fn secure(self) -> bool {
        self == TransportMode::Dtls || self == TransportMode::Tls
    }

    /// Whether the mode sends datagrams rather than a byte stream.
    pub open spec fn datagram(self) -> bool {
        self == TransportMode::Udp || self == TransportMode::Dtls
    }

    /// Picks the mode for the `udp` and `secure` flags.
    pub fn from_flags(udp: bool, secure: bool) -> (mode: TransportMode)
        ensures
            mode == Self::select(udp, secure),
            mode.secure() == secure,
            mode.datagram() == udp,
    {
        if secure {
            if udp {
                TransportMode::Dtls
            } else {
                TransportMode::Tls
            }
        } else if udp {
            TransportMode::Udp
        } else {
            TransportMode::Tcp
        }
    }

    /// True for the two modes that need a CA certificate.
    pub fn is_secure(&self) -> (secure: bool)
        ensures
            secure == self.secure(),
    {
        match self {
            TransportMode::Dtls | TransportMode::Tls => true,
            TransportMode::Udp | TransportMode::Tcp => false,
        }
    }

    /// True for the two modes that run over a datagram socket.
    pub fn is_datagram(&self) -> (datagram: bool)
        ensures
            datagram == self.datagram(),
    {
        match self {
            TransportMode::Udp | TransportMode::Dtls => true,
            TransportMode::Tcp | TransportMode::Tls => false,
        }
    }

    /// Whether the handshake accepts a certificate issued for another host
    /// name. Only TLS does: targets are commonly addressed by bare IP, so the
    /// name check is relaxed while the chain is still verified against the CA.
    pub fn skips_hostname_verification(&self) -> (skips: bool)
        ensures
            skips == (*self == TransportMode::Tls),
    {
        match self {
            TransportMode::Tls => true,
            _ => false,
        }
    }
}

/// The target of the run, held as plain numbers.
#[derive(Clone, Copy, Debug)]
pub enum Endpoint {
    /// An IPv4 address and port.
    V4 { octets: [u8; 4], port: u16 },
    /// An IPv6 address and port, with its flow label and scope.
    V6 { segments: [u16; 8], port: u16, flowinfo: u32, scope_id: u32 },
}

impl Endpoint {
    /// The port of the target.
    pub open spec fn target_port(self) -> u16 {
        match self {
            Endpoint::V4 { port, .. } => port,
            Endpoint::V6 { port, .. } => port,
        }
    }

    /// Returns the port of the target.
    pub fn port(&self) -> (port: u16)
        ensures
            port == self.target_port(),
    {
        match self {
            Endpoint::V4 { port, .. } => *port,
            Endpoint::V6 { port, .. } => *port,
        }
    }
}

/// Why a configuration cannot be run.
#[derive(Clone, Copy, Debug, PartialEq, Eq, Structural)]
pub enum ConfigurationError {
    /// A secure mode was selected without a CA certificate to trust.
    MissingCaFile,
}

impl ConfigurationError {
    /// The message reported for this error.
    pub fn message(&self) -> (text: &'static str)
        ensures
            text@ == "DTLS requires CA file to verify server credentials"@,
    {
        match self {
            ConfigurationError::MissingCaFile => {
                "DTLS requires CA file to verify server credentials"
            },
        }
    }
}

/// Everything a run is configured with.
///
/// `connection_type` is `(udp, (secure, ca_file))`: whether to send datagrams,
/// whether to secure the channel, and the CA certificate that a secure channel
/// trusts.
pub struct Parameters {
    pub server_addr: Endpoint,
    pub rate: usize,
    pub connections: usize,
    pub len: usize,
    pub start_port: usize,
    pub sleep: u64,
    pub connection_type: (bool, (bool, Option<String>)),
}

impl Parameters {
    /// Whether the run sends datagrams.
    pub open spec fn udp(&self) -> bool {
        self.connection_type.0
    }

    /// Whether the run secures its channels.
    pub open spec fn secure(&self) -> bool {
        self.connection_type.1.0
    }

    /// Whether a CA certificate path was given. An empty path is no path.
    pub open spec fn ca_present(&self) -> bool {
        match self.connection_type.1.1 {
            Some(path) => path@.len() > 0,
            None => false,
        }
    }

    /// The transport mode that the two flags select.
    pub open spec fn mode(&self) -> TransportMode {
        TransportMode::select(self.udp(), self.secure())
    }

    /// A configuration can be run unless it asks for security without a CA.
    pub open spec fn runnable(&self) -> bool {
        self.secure() ==> self.ca_present()
    }

    /// Assembles a configuration from its parts.
    pub fn new(
        server_addr: Endpoint,
        rate: usize,
        connections: usize,
        len: usize,
        start_port: usize,
        sleep: u64,
        connection_type: (bool, (bool, Option<String>)),
    ) -> (params: Parameters)
        ensures
            params.server_addr == server_addr,
            params.rate == rate,
            params.connections == connections,
            params.len == len,
            params.start_port == start_port,
            params.sleep == sleep,
            params.connection_type == connection_type,
    {
        Parameters { server_addr, rate, connections, len, start_port, sleep, connection_type }
    }

    /// Returns whether a non-empty CA certificate path was given.
    pub fn has_ca_file(&self) -> (present: bool)
        ensures
            present == self.ca_present(),
    {
        match &self.connection_type.1.1 {
            Some(path) => !path.as_str().is_empty(),
            None => false,
        }
    }

    /// Returns the transport mode of the run.
    pub fn transport_mode(&self) -> (mode: TransportMode)
        ensures
            mode == self.mode(),
    {
        TransportMode::from_flags(self.connection_type.0, self.connection_type.1.0)
    }

    /// Checks the configuration before anything is opened.
    ///
    /// Fails exactly when a secure mode is selected and no CA certificate path
    /// is present; otherwise yields the transport mode to use.
    pub fn validate(&self) -> (checked: Result<TransportMode, ConfigurationError>)
        ensures
            self.runnable() ==> checked == Ok::<TransportMode, ConfigurationError>(self.mode()),
            !self.runnable() ==> checked == Err::<TransportMode, ConfigurationError>(
                ConfigurationError::MissingCaFile,
            ),
    {
        if self.connection_type.1.0 && !self.has_ca_file() {
            Err(ConfigurationError::MissingCaFile)
        } else {
            Ok(self.transport_mode())
        }
    }
}

} // verus!
