//! Failures of configuration synthesis.

use vstd::prelude::*;

verus! {

/// The part of the stored settings that a failure concerns.
#[derive(Clone, Copy, Debug, PartialEq, Eq, Structural)]
pub enum Section {
    Log,
    Inbounds,
    Outbounds,
    StreamSettings,
    TcpSettings,
    KcpSettings,
    Http2Settings,
    QuicSettings,
    GrpcSettings,
    WsSettings,
    TlsSettings,
    VmessVnext,
    VmessUsers,
    Shadowsocks,
    TrojanServers,
    Hysteria2,
    Dns,
    BypassDomains,
}

/// A fault in the stored settings. Each one ends the synthesis: no partial
/// configuration is ever handed out.
#[derive(Clone, Copy, Debug, PartialEq, Eq, Structural)]
pub enum ConfigError {
    /// A section that the configuration needs has no row.
    MissingRow(Section),
    /// A stored number does not fit the type that the engine expects.
    InvalidNumber(Section),
    /// A stored JSON text is not JSON, or not of the expected shape.
    MalformedDocument(Section),
    /// The finished document could not be printed.
    Serialization,
}

/// Why no configuration was synthesized.
#[derive(Clone, Copy, Debug, PartialEq, Eq, Structural)]
pub enum SynthesisError {
    /// The endpoint does not belong to the group of the requesting user.
    Association,
    /// The stored settings are incomplete or invalid.
    Config(ConfigError),
}

/// The error for a missing row of `section`.
pub open spec fn missing(section: Section) -> SynthesisError {
    SynthesisError::Config(ConfigError::MissingRow(section))
}

/// The error for a number of `section` that is out of range.
pub open spec fn invalid_number(section: Section) -> SynthesisError {
    SynthesisError::Config(ConfigError::InvalidNumber(section))
}

/// The error for a malformed stored document of `section`.
pub open spec fn malformed(section: Section) -> SynthesisError {
    SynthesisError::Config(ConfigError::MalformedDocument(section))
}

} // verus!
