//! The settings of the sink that writes events to the console.

use vstd::prelude::*;
use crate::sinks::common::{
    AcknowledgementsConfig, DataType, EncodingConfigWithFraming, Serializer,
};

verus! {

/// Where the sink writes to.
#[derive(Clone, Copy, Debug, PartialEq, Eq, Structural)]
pub enum Target {
    /// Standard output.
    Stdout,
    /// Standard error.
    Stderr,
}

impl Default for Target {
    fn default() -> (target: Target)
        ensures
            target == Target::Stdout,
    {
        Target::Stdout
    }
}

/// The settings of the sink.
#[derive(Clone, Copy, Debug, PartialEq, Eq, Structural)]
pub struct ConsoleSinkConfig {
    pub target: Target,
    pub encoding: EncodingConfigWithFraming,
    pub acknowledgements: AcknowledgementsConfig,
}

impl ConsoleSinkConfig {
    /// Settings to start from: structured events to standard output.
    pub fn generate_config() -> (config: ConsoleSinkConfig)
        ensures
            config == (ConsoleSinkConfig {
                target: Target::Stdout,
                encoding: EncodingConfigWithFraming { framing: None, encoding: Serializer::Json },
                acknowledgements: AcknowledgementsConfig { enabled: None },
            }),
    {
        ConsoleSinkConfig {
            target: Target::Stdout,
            encoding: EncodingConfigWithFraming { framing: None, encoding: Serializer::Json },
            acknowledgements: AcknowledgementsConfig::default(),
        }
    }

    /// The kinds of event that the sink takes in: those that its serializer
    /// can write out.
    pub fn input(&self) -> (data_type: DataType)
        ensures
            data_type == self.encoding.encoding.accepts(),
    {
        self.encoding.encoding.input_type()
    }

    /// The name of the kind of sink.
    pub fn sink_type(&self) -> (name: &'static str)
        ensures
            name@ == "console"@,
    {
        "console"
    }

    pub fn acknowledgements(&self) -> (acknowledgements: Option<&AcknowledgementsConfig>)
        ensures
            acknowledgements == Some(&self.acknowledgements),
    {
        Some(&self.acknowledgements)
    }
}

} // verus!
