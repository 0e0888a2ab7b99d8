//! The settings of the source that polls a queue for messages.

use vstd::prelude::*;
use crate::sinks::common::{
    AcknowledgementsConfig, AwsAuthentication, DataType, RegionOrEndpoint, TlsConfig,
};

verus! {

/// How the bytes of a message are set apart into events.
#[derive(Clone, Copy, Debug, PartialEq, Eq, Structural)]
pub enum FramingConfig {
    Bytes,
    /// One byte between events.
    CharacterDelimited(u8),
    LengthDelimited,
    NewlineDelimited,
    OctetCounting,
}

/// How the bytes of an event are read.
#[derive(Clone, Copy, Debug, PartialEq, Eq, Structural)]
pub enum DeserializerConfig {
    Bytes,
    Json,
    Syslog,
    Native,
    NativeJson,
    Gelf,
}

impl DeserializerConfig {
    /// The kinds of event that reading gives: every kind for the forms that
    /// carry the kind along, log events for the others.
    pub open spec fn gives(self) -> DataType {
        match self {
            DeserializerConfig::Native | DeserializerConfig::NativeJson => DataType {
                log: true,
                metric: true,
                trace: true,
            },
            _ => DataType { log: true, metric: false, trace: false },
        }
    }

    /// The kinds of event that reading gives.
    pub fn output_type(&self) -> (data_type: DataType)
        ensures
            data_type == self.gives(),
    {
        match self {
            DeserializerConfig::Native | DeserializerConfig::NativeJson => DataType::all(),
            _ => DataType::log(),
        }
    }
}

/// The settings of the source.
#[derive(Clone, Debug)]
pub struct AwsSqsConfig {
    pub region: RegionOrEndpoint,
    pub auth: AwsAuthentication,
    /// The address of the queue.
    pub queue_url: String,
    /// The seconds to wait for messages when polling.
    pub poll_secs: u32,
    /// The seconds that a message stays hidden from other readers after it
    /// was received.
    pub visibility_timeout_secs: u32,
    /// Whether a message is deleted once it has been processed.
    pub delete_message: bool,
    /// The number of tasks that poll the queue at the same time.
    pub client_concurrency: u32,
    pub framing: FramingConfig,
    pub decoding: DeserializerConfig,
    pub acknowledgements: AcknowledgementsConfig,
    pub tls: Option<TlsConfig>,
}

pub fn default_poll_secs() -> (secs: u32)
    ensures
        secs == 15,
{
    15
}

/// As many tasks as the process has threads, given here as `threads`;
/// of a number that is too large, the low 32 bits.
pub fn default_client_concurrency(threads: usize) -> (tasks: u32)
    ensures
        tasks == threads as int % 0x1_0000_0000,
{
    let threads: u64 = threads as u64;
    (threads % 0x1_0000_0000) as u32
}

pub fn default_visibility_timeout_secs() -> (secs: u32)
    ensures
        secs == 300,
{
    300
}

pub fn default_true() -> (yes: bool)
    ensures
        yes,
{
    true
}

impl AwsSqsConfig {
    /// The settings with everything left out that can be, for a process of
    /// `threads` threads.
    pub fn generate_config(threads: usize) -> (config: AwsSqsConfig)
        ensures
            config.region.region is None,
            config.region.endpoint is None,
            config.auth is Default,
            config.queue_url@ == Seq::<char>::empty(),
            config.poll_secs == 15,
            config.visibility_timeout_secs == 300,
            config.delete_message,
            config.client_concurrency == threads as int % 0x1_0000_0000,
            config.framing == FramingConfig::Bytes,
            config.decoding == DeserializerConfig::Bytes,
            config.acknowledgements == (AcknowledgementsConfig { enabled: None }),
            config.tls is None,
    {
        AwsSqsConfig {
            region: RegionOrEndpoint::default(),
            auth: AwsAuthentication::default(),
            queue_url: String::new(),
            poll_secs: default_poll_secs(),
            visibility_timeout_secs: default_visibility_timeout_secs(),
            delete_message: default_true(),
            client_concurrency: default_client_concurrency(threads),
            framing: FramingConfig::Bytes,
            decoding: DeserializerConfig::Bytes,
            acknowledgements: AcknowledgementsConfig::default(),
            tls: None,
        }
    }

    /// The kinds of event that the source gives out, one for each output.
    pub fn outputs(&self) -> (outputs: Vec<DataType>)
        ensures
            outputs@ == seq![self.decoding.gives()],
    {
        let mut outputs: Vec<DataType> = Vec::new();
        outputs.push(self.decoding.output_type());
        assert(outputs@ =~= seq![self.decoding.gives()]);
        outputs
    }

    /// The name of the kind of source.
    pub fn source_type(&self) -> (name: &'static str)
        ensures
            name@ == "aws_sqs"@,
    {
        "aws_sqs"
    }

    /// Whether the source can wait for events to be delivered before it
    /// acknowledges them.
    pub fn can_acknowledge(&self) -> (yes: bool)
        ensures
            yes,
    {
        true
    }
}

} // verus!
