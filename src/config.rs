//! Resolution of an environment snapshot into a validated exporter
//! configuration: which protocol, which endpoint, whether to encrypt, and
//! which static headers to send.
use vstd::prelude::*;

use crate::environment::{any_prefixed, resolves_to, EnvironmentSnapshot};
use crate::error::{ConfigError, ErrorKind};
use crate::headers::{header_set_of, parse_headers, HeaderEntry};
use crate::text::{has_prefix, starts_with, str_equal};

verus! {

/// The wire protocol used to ship spans to the collector.
#[derive(Clone, Copy, Debug, PartialEq, Eq, Structural)]
pub enum Protocol {
    /// OTLP over gRPC; the default.
    Grpc,
    /// OTLP as protobuf over HTTP.
    HttpProtobuf,
}

/// The protocol that a selector value names, if any.
pub open spec fn protocol_for(sel: Option<Seq<char>>) -> Result<Protocol, (ErrorKind, Seq<char>)> {
    match sel {
        None => Ok(Protocol::Grpc),
        Some(s) => if s == "grpc"@ {
            Ok(Protocol::Grpc)
        } else if s == "http/protobuf"@ {
            Ok(Protocol::HttpProtobuf)
        } else {
            Err((ErrorKind::UnsupportedProtocol, s))
        },
    }
}

/// The collector address used when none is configured.
pub open spec fn default_endpoint_of(p: Protocol) -> Seq<char> {
    match p {
        Protocol::Grpc => "http://localhost:4317"@,
        Protocol::HttpProtobuf => "http://localhost:4318"@,
    }
}

/// An endpoint whose scheme asks for an encrypted transport.
pub open spec fn is_encrypted_endpoint(e: Seq<char>) -> bool {
    has_prefix(e, "https://"@)
}

/// Transport security follows the configured endpoint; without one it is off.
pub open spec fn security_for(endpoint: Option<Seq<char>>) -> bool {
    match endpoint {
        Some(e) => is_encrypted_endpoint(e),
        None => false,
    }
}

impl Protocol {
    /// The protocol that a selector names; no selector means gRPC.
    pub fn from_selector(sel: Option<&str>) -> (r: Result<Protocol, ConfigError>)
        ensures
            match protocol_for(
                match sel {
                    Some(s) => Some(s@),
                    None => None,
                },
            ) {
                Ok(p) => r == Ok::<Protocol, ConfigError>(p),
                Err(e) => r is Err && r->Err_0@ == e,
            },
    {
        match sel {
            None => Ok(Protocol::Grpc),
            Some(s) => {
                if str_equal(s, "grpc") {
                    Ok(Protocol::Grpc)
                } else if str_equal(s, "http/protobuf") {
                    Ok(Protocol::HttpProtobuf)
                } else {
                    Err(ConfigError::new(ErrorKind::UnsupportedProtocol, s))
                }
            },
        }
    }

    /// The collector address used when none is configured.
    pub fn default_endpoint(&self) -> (r: &'static str)
        ensures
            r@ == default_endpoint_of(*self),
    {
        match self {
            Protocol::Grpc => "http://localhost:4317",
            Protocol::HttpProtobuf => "http://localhost:4318",
        }
    }
}

/// A resolved, validated exporter configuration.
#[derive(Clone, Debug)]
pub struct ExporterConfig {
    pub protocol: Protocol,
    /// The configured collector endpoint; `None` means the protocol's default.
    pub endpoint: Option<String>,
    /// Whether the transport is encrypted.
    pub secure: bool,
    /// Static headers sent with every export, in the order given.
    pub headers: Vec<HeaderEntry>,
}

/// The abstract content of an [`ExporterConfig`].
pub ghost struct ExporterSettings {
    pub protocol: Protocol,
    pub endpoint: Option<Seq<char>>,
    pub secure: bool,
    pub headers: Seq<(Seq<char>, Seq<char>)>,
}

impl View for ExporterConfig {
    type V = ExporterSettings;

    open spec fn view(&self) -> ExporterSettings {
        ExporterSettings {
            protocol: self.protocol,
            endpoint: self.endpoint.deep_view(),
            secure: self.secure,
            headers: self.headers.deep_view(),
        }
    }
}

/// The exporter configuration that a snapshot stands for: none when telemetry
/// was not requested; else the protocol is resolved first, then the headers,
/// and the first failure is the result.
pub open spec fn exporter_settings_of(snap: EnvironmentSnapshot) -> Result<
    Option<ExporterSettings>,
    (ErrorKind, Seq<char>),
> {
    if !snap.telemetry_requested {
        Ok(None)
    } else {
        match protocol_for(snap.protocol.deep_view()) {
            Err(e) => Err(e),
            Ok(p) => match header_set_of(snap.headers.deep_view()) {
                Err(e) => Err(e),
                Ok(hs) => Ok(
                    Some(
                        ExporterSettings {
                            protocol: p,
                            endpoint: snap.endpoint.deep_view(),
                            secure: security_for(snap.endpoint.deep_view()),
                            headers: hs,
                        },
                    ),
                ),
            },
        }
    }
}

/// The abstract content of a [`build`] result.
pub open spec fn config_result_view(r: Result<Option<ExporterConfig>, ConfigError>) -> Result<
    Option<ExporterSettings>,
    (ErrorKind, Seq<char>),
> {
    match r {
        Ok(Some(c)) => Ok(Some(c@)),
        Ok(None) => Ok(None),
        Err(e) => Err(e@),
    }
}

/// Borrows the string inside an optional value.
fn as_str_opt(o: &Option<String>) -> (r: Option<&str>)
    ensures
        match r {
            Some(s) => Some(s@),
            None => None::<Seq<char>>,
        } == o.deep_view(),
{
    match o {
        Some(s) => Some(s.as_str()),
        None => None,
    }
}

/// Copies an optional string.
fn clone_opt(o: &Option<String>) -> (r: Option<String>)
    ensures
        r.deep_view() == o.deep_view(),
{
    match o {
        Some(s) => Some(s.clone()),
        None => None,
    }
}

/// Whether an endpoint URL asks for an encrypted transport.
pub fn is_secure_endpoint(endpoint: &str) -> (r: bool)
    ensures
        r == is_encrypted_endpoint(endpoint@),
{
    starts_with(endpoint, "https://")
}

/// Resolves a snapshot into the exporter configuration it asks for: `Ok(None)`
/// when telemetry was not requested, an error for an unsupported protocol or a
/// malformed header set.
pub fn build(snapshot: &EnvironmentSnapshot) -> (r: Result<Option<ExporterConfig>, ConfigError>)
    ensures
        config_result_view(r) == exporter_settings_of(*snapshot),
{
    if !snapshot.telemetry_requested {
        return Ok(None);
    }
    let protocol = match Protocol::from_selector(as_str_opt(&snapshot.protocol)) {
        Ok(p) => p,
        Err(e) => return Err(e),
    };
    let secure = match &snapshot.endpoint {
        Some(e) => is_secure_endpoint(e.as_str()),
        None => false,
    };
    let headers = match parse_headers(as_str_opt(&snapshot.headers)) {
        Ok(h) => h,
        Err(e) => return Err(e),
    };
    Ok(Some(ExporterConfig { protocol, endpoint: clone_opt(&snapshot.endpoint), secure, headers }))
}

impl ExporterConfig {
    /// The collector address exports go to: the configured one, else the
    /// protocol's default.
    pub fn effective_endpoint(&self) -> (r: String)
        ensures
            r@ == match self.endpoint.deep_view() {
                Some(e) => e,
                None => default_endpoint_of(self.protocol),
            },
    {
        match &self.endpoint {
            Some(e) => e.clone(),
            None => self.protocol.default_endpoint().to_owned(),
        }
    }
}

/// An environment in which no variable carries the telemetry prefix resolves
/// to no exporter configuration at all, and to no error.
pub proof fn lemma_unprefixed_environment_disables(
    vars: Seq<(Seq<char>, Seq<char>)>,
    snap: EnvironmentSnapshot,
)
    requires
        resolves_to(vars, snap),
        !any_prefixed(vars),
    ensures
        exporter_settings_of(snap) == Ok::<Option<ExporterSettings>, (ErrorKind, Seq<char>)>(None),
{
}

} // verus!
