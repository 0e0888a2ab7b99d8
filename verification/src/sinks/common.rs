//! Settings that several components share.

use vstd::prelude::*;

verus! {

/// Whether the component waits for events to be delivered before it
/// acknowledges them.
#[derive(Clone, Copy, Debug, PartialEq, Eq, Structural)]
pub struct AcknowledgementsConfig {
    pub enabled: Option<bool>,
}

impl Default for AcknowledgementsConfig {
    fn default() -> (config: AcknowledgementsConfig)
        ensures
            config == (AcknowledgementsConfig { enabled: None }),
    {
        AcknowledgementsConfig { enabled: None }
    }
}

/// The keep-alive probes of a connection.
#[derive(Clone, Copy, Debug, PartialEq, Eq, Structural)]
pub struct TcpKeepaliveConfig {
    /// The seconds that a connection is idle before a probe is sent.
    pub time_secs: Option<u64>,
}

/// How a connection is secured.
#[derive(Clone, Debug, PartialEq, Eq)]
pub struct TlsConfig {
    pub verify_certificate: Option<bool>,
    pub verify_hostname: Option<bool>,
    pub alpn_protocols: Option<Vec<String>>,
    pub ca_file: Option<String>,
    pub crt_file: Option<String>,
    pub key_file: Option<String>,
    pub key_pass: Option<String>,
}

impl Default for TlsConfig {
    fn default() -> (config: TlsConfig)
        ensures
            config == (TlsConfig {
                verify_certificate: None,
                verify_hostname: None,
                alpn_protocols: None,
                ca_file: None,
                crt_file: None,
                key_file: None,
                key_pass: None,
            }),
    {
        TlsConfig {
            verify_certificate: None,
            verify_hostname: None,
            alpn_protocols: None,
            ca_file: None,
            crt_file: None,
            key_file: None,
            key_pass: None,
        }
    }
}

/// How a connection is secured, where securing it can be switched off.
#[derive(Clone, Debug, PartialEq, Eq)]
pub struct TlsEnableableConfig {
    pub enabled: Option<bool>,
    pub options: TlsConfig,
}

impl Default for TlsEnableableConfig {
    fn default() -> (config: TlsEnableableConfig)
        ensures
            config.enabled is None,
            config.options == (TlsConfig {
                verify_certificate: None,
                verify_hostname: None,
                alpn_protocols: None,
                ca_file: None,
                crt_file: None,
                key_file: None,
                key_pass: None,
            }),
    {
        TlsEnableableConfig { enabled: None, options: TlsConfig::default() }
    }
}

/// The kinds of event that a component takes in.
#[derive(Clone, Copy, Debug, PartialEq, Eq, Structural)]
pub struct DataType {
    pub log: bool,
    pub metric: bool,
    pub trace: bool,
}

impl DataType {
    /// Log events only.
    pub fn log() -> (data_type: DataType)
        ensures
            data_type == (DataType { log: true, metric: false, trace: false }),
    {
        DataType { log: true, metric: false, trace: false }
    }

    /// Every kind of event.
    pub fn all() -> (data_type: DataType)
        ensures
            data_type == (DataType { log: true, metric: true, trace: true }),
    {
        DataType { log: true, metric: true, trace: true }
    }

    /// The kinds that are in both.
    pub fn and(self, other: DataType) -> (data_type: DataType)
        ensures
            data_type == (DataType {
                log: self.log && other.log,
                metric: self.metric && other.metric,
                trace: self.trace && other.trace,
            }),
    {
        DataType {
            log: self.log && other.log,
            metric: self.metric && other.metric,
            trace: self.trace && other.trace,
        }
    }
}

/// How events are written out as bytes.
#[derive(Clone, Copy, Debug, PartialEq, Eq, Structural)]
pub enum Serializer {
    Json,
    Logfmt,
    Native,
    NativeJson,
    RawMessage,
    Text,
}

impl Serializer {
    /// The kinds of event that the serializer can write out.
    pub fn input_type(&self) -> (data_type: DataType)
        ensures
            data_type == self.accepts(),
    {
        match self {
            Serializer::Json | Serializer::Native | Serializer::NativeJson => DataType::all(),
            Serializer::Logfmt | Serializer::RawMessage | Serializer::Text => DataType::log(),
        }
    }

    /// The kinds of event that the serializer can write out: every kind for
    /// the structured forms, log events for the textual ones.
    pub open spec fn accepts(self) -> DataType {
        match self {
            Serializer::Json | Serializer::Native | Serializer::NativeJson => DataType {
                log: true,
                metric: true,
                trace: true,
            },
            _ => DataType { log: true, metric: false, trace: false },
        }
    }
}

/// How the serialized events are set apart from each other.
#[derive(Clone, Copy, Debug, PartialEq, Eq, Structural)]
pub enum Framing {
    Bytes,
    /// One byte between events.
    CharacterDelimited(u8),
    LengthDelimited,
    NewlineDelimited,
}

/// Framing and serializer of a component that writes events out.
#[derive(Clone, Copy, Debug, PartialEq, Eq, Structural)]
pub struct EncodingConfigWithFraming {
    /// The framing; left out, the component picks its own.
    pub framing: Option<Framing>,
    pub encoding: Serializer,
}

/// How what is sent is compressed.
#[derive(Clone, Copy, Debug, PartialEq, Eq, Structural)]
pub enum Compression {
    /// Not at all.
    Uncompressed,
    /// Gzip at the given level.
    Gzip(u32),
}

impl Compression {
    /// Gzip at its usual level.
    pub fn gzip_default() -> (compression: Compression)
        ensures
            compression == Compression::Gzip(6),
    {
        Compression::Gzip(6)
    }
}

/// How events are collected into batches.
#[derive(Clone, Copy, Debug, PartialEq, Eq, Structural)]
pub struct BatchConfig {
    pub max_bytes: Option<usize>,
    pub max_events: Option<usize>,
    pub timeout_secs: Option<u64>,
}

impl Default for BatchConfig {
    fn default() -> (config: BatchConfig)
        ensures
            config == (BatchConfig { max_bytes: None, max_events: None, timeout_secs: None }),
    {
        BatchConfig { max_bytes: None, max_events: None, timeout_secs: None }
    }
}

/// The limits on the requests that a component makes.
#[derive(Clone, Copy, Debug, PartialEq, Eq, Structural)]
pub struct TowerRequestConfig {
    pub concurrency: Option<usize>,
    pub timeout_secs: Option<u64>,
    pub rate_limit_duration_secs: Option<u64>,
    pub rate_limit_num: Option<u64>,
    pub retry_attempts: Option<usize>,
    pub retry_max_duration_secs: Option<u64>,
    pub retry_initial_backoff_secs: Option<u64>,
}

impl Default for TowerRequestConfig {
    fn default() -> (config: TowerRequestConfig)
        ensures
            config == TowerRequestConfig::unset(),
    {
        TowerRequestConfig {
            concurrency: None,
            timeout_secs: None,
            rate_limit_duration_secs: None,
            rate_limit_num: None,
            retry_attempts: None,
            retry_max_duration_secs: None,
            retry_initial_backoff_secs: None,
        }
    }
}

impl TowerRequestConfig {
    /// The limits with none of them set.
    pub open spec fn unset() -> TowerRequestConfig {
        TowerRequestConfig {
            concurrency: None,
            timeout_secs: None,
            rate_limit_duration_secs: None,
            rate_limit_num: None,
            retry_attempts: None,
            retry_max_duration_secs: None,
            retry_initial_backoff_secs: None,
        }
    }

    /// One limit: the one set here, else the one of `defaults`.
    pub open spec fn either<T>(set: Option<T>, default: Option<T>) -> Option<T> {
        if set is Some {
            set
        } else {
            default
        }
    }

    /// These limits, with each one that is not set taken from `defaults`.
    pub open spec fn filled(self, defaults: TowerRequestConfig) -> TowerRequestConfig {
        TowerRequestConfig {
            concurrency: Self::either(self.concurrency, defaults.concurrency),
            timeout_secs: Self::either(self.timeout_secs, defaults.timeout_secs),
            rate_limit_duration_secs: Self::either(
                self.rate_limit_duration_secs,
                defaults.rate_limit_duration_secs,
            ),
            rate_limit_num: Self::either(self.rate_limit_num, defaults.rate_limit_num),
            retry_attempts: Self::either(self.retry_attempts, defaults.retry_attempts),
            retry_max_duration_secs: Self::either(
                self.retry_max_duration_secs,
                defaults.retry_max_duration_secs,
            ),
            retry_initial_backoff_secs: Self::either(
                self.retry_initial_backoff_secs,
                defaults.retry_initial_backoff_secs,
            ),
        }
    }

    /// These limits, with each one that is not set taken from `defaults`.
    pub fn unwrap_with(&self, defaults: &TowerRequestConfig) -> (limits: TowerRequestConfig)
        ensures
            limits == self.filled(*defaults),
    {
        TowerRequestConfig {
            concurrency: if self.concurrency.is_some() {
                self.concurrency
            } else {
                defaults.concurrency
            },
            timeout_secs: if self.timeout_secs.is_some() {
                self.timeout_secs
            } else {
                defaults.timeout_secs
            },
            rate_limit_duration_secs: if self.rate_limit_duration_secs.is_some() {
                self.rate_limit_duration_secs
            } else {
                defaults.rate_limit_duration_secs
            },
            rate_limit_num: if self.rate_limit_num.is_some() {
                self.rate_limit_num
            } else {
                defaults.rate_limit_num
            },
            retry_attempts: if self.retry_attempts.is_some() {
                self.retry_attempts
            } else {
                defaults.retry_attempts
            },
            retry_max_duration_secs: if self.retry_max_duration_secs.is_some() {
                self.retry_max_duration_secs
            } else {
                defaults.retry_max_duration_secs
            },
            retry_initial_backoff_secs: if self.retry_initial_backoff_secs.is_some() {
                self.retry_initial_backoff_secs
            } else {
                defaults.retry_initial_backoff_secs
            },
        }
    }
}

/// The region of a service, or the address to reach it at.
#[derive(Clone, Debug, PartialEq, Eq)]
pub struct RegionOrEndpoint {
    pub region: Option<String>,
    pub endpoint: Option<String>,
}

impl Default for RegionOrEndpoint {
    fn default() -> (config: RegionOrEndpoint)
        ensures
            config.region is None,
            config.endpoint is None,
    {
        RegionOrEndpoint { region: None, endpoint: None }
    }
}

/// How the component signs in to the service.
#[derive(Clone, Debug, PartialEq, Eq)]
pub enum AwsAuthentication {
    /// With what the surroundings of the process provide.
    Default,
    /// With a key pair.
    Static { access_key_id: String, secret_access_key: String },
    /// With the credentials of a profile in a file.
    File { credentials_file: String, profile: Option<String> },
    /// By taking on a role.
    Role { assume_role: String },
}

impl Default for AwsAuthentication {
    fn default() -> (auth: AwsAuthentication)
        ensures
            auth is Default,
    {
        AwsAuthentication::Default
    }
}

} // verus!
