//! The settings of the sink that stores events as objects in a bucket.

use vstd::prelude::*;
use crate::sinks::common::{
    AcknowledgementsConfig, AwsAuthentication, BatchConfig, Compression, DataType,
    EncodingConfigWithFraming, RegionOrEndpoint, Serializer, TlsConfig, TowerRequestConfig,
};

verus! {

/// How an object is stored.
#[derive(Clone, Debug, PartialEq, Eq)]
pub struct S3Options {
    pub acl: Option<String>,
    pub grant_full_control: Option<String>,
    pub grant_read: Option<String>,
    pub server_side_encryption: Option<String>,
    pub ssekms_key_id: Option<String>,
    pub storage_class: Option<String>,
    pub content_encoding: Option<String>,
    pub content_type: Option<String>,
}

impl Default for S3Options {
    fn default() -> (options: S3Options)
        ensures
            options.acl is None,
            options.grant_full_control is None,
            options.grant_read is None,
            options.server_side_encryption is None,
            options.ssekms_key_id is None,
            options.storage_class is None,
            options.content_encoding is None,
            options.content_type is None,
    {
        S3Options {
            acl: None,
            grant_full_control: None,
            grant_read: None,
            server_side_encryption: None,
            ssekms_key_id: None,
            storage_class: None,
            content_encoding: None,
            content_type: None,
        }
    }
}

/// The settings of the sink.
#[derive(Clone, Debug)]
pub struct S3SinkConfig {
    /// The name of the bucket, without a scheme before it or a slash after.
    pub bucket: String,
    /// What every object key starts with.
    pub key_prefix: Option<String>,
    /// The format of the time in the object key.
    pub filename_time_format: Option<String>,
    /// Whether a unique token is added at the end of the object key.
    pub filename_append_uuid: Option<bool>,
    /// The extension of the object key.
    pub filename_extension: Option<String>,
    pub options: S3Options,
    pub region: RegionOrEndpoint,
    pub encoding: EncodingConfigWithFraming,
    pub compression: Compression,
    pub batch: BatchConfig,
    pub request: TowerRequestConfig,
    pub tls: Option<TlsConfig>,
    pub auth: AwsAuthentication,
    pub acknowledgements: AcknowledgementsConfig,
}

/// What the sink needs to know to name and write an object, with every
/// setting that was left out filled in.
#[derive(Debug)]
pub struct S3RequestOptions {
    pub bucket: String,
    pub key_prefix: String,
    pub filename_time_format: String,
    pub filename_append_uuid: bool,
    pub filename_extension: Option<String>,
    pub compression: Compression,
    pub request: TowerRequestConfig,
}

/// The key prefix where none is set: one directory for each day.
pub open spec fn default_key_prefix() -> Seq<char> {
    "date=%F/"@
}

/// The time format where none is set: seconds since the epoch.
pub open spec fn default_filename_time_format() -> Seq<char> {
    "%s"@
}

/// A text that may have been left out, and then is `default`.
pub open spec fn text_or(text: Option<String>, default: Seq<char>) -> Seq<char> {
    match text {
        Some(text) => text@,
        None => default,
    }
}

/// The model of a text that may have been left out.
pub open spec fn text_view(text: Option<String>) -> Option<Seq<char>> {
    match text {
        Some(text) => Some(text@),
        None => None,
    }
}

fn clone_text(text: &Option<String>) -> (res: Option<String>)
    ensures
        text_view(res) == text_view(*text),
{
    match text {
        Some(text) => Some(text.clone()),
        None => None,
    }
}

impl S3SinkConfig {
    /// Settings to start from: text events, compressed, everything else left
    /// out.
    pub fn generate_config() -> (config: S3SinkConfig)
        ensures
            config.bucket@ == Seq::<char>::empty(),
            config.key_prefix is None,
            config.filename_time_format is None,
            config.filename_append_uuid is None,
            config.filename_extension is None,
            config.options.acl is None,
            config.options.grant_full_control is None,
            config.options.grant_read is None,
            config.options.server_side_encryption is None,
            config.options.ssekms_key_id is None,
            config.options.storage_class is None,
            config.options.content_encoding is None,
            config.options.content_type is None,
            config.region.region is None,
            config.region.endpoint is None,
            config.encoding == (EncodingConfigWithFraming {
                framing: None,
                encoding: Serializer::Text,
            }),
            config.compression == Compression::Gzip(6),
            config.batch == (BatchConfig { max_bytes: None, max_events: None, timeout_secs: None }),
            config.request == TowerRequestConfig::unset(),
            config.tls matches Some(tls) && tls == (TlsConfig {
                verify_certificate: None,
                verify_hostname: None,
                alpn_protocols: None,
                ca_file: None,
                crt_file: None,
                key_file: None,
                key_pass: None,
            }),
            config.auth is Default,
            config.acknowledgements == (AcknowledgementsConfig { enabled: None }),
    {
        S3SinkConfig {
            bucket: String::new(),
            key_prefix: None,
            filename_time_format: None,
            filename_append_uuid: None,
            filename_extension: None,
            options: S3Options::default(),
            region: RegionOrEndpoint::default(),
            encoding: EncodingConfigWithFraming { framing: None, encoding: Serializer::Text },
            compression: Compression::gzip_default(),
            batch: BatchConfig::default(),
            request: TowerRequestConfig::default(),
            tls: Some(TlsConfig::default()),
            auth: AwsAuthentication::default(),
            acknowledgements: AcknowledgementsConfig::default(),
        }
    }

    /// The kinds of event that the sink takes in: the log events among those
    /// that its serializer can write out.
    pub fn input(&self) -> (data_type: DataType)
        ensures
            data_type == (DataType { log: true, metric: false, trace: false }),
    {
        self.encoding.encoding.input_type().and(DataType::log())
    }

    /// The name of the kind of sink.
    pub fn sink_type(&self) -> (name: &'static str)
        ensures
            name@ == "aws_s3"@,
    {
        "aws_s3"
    }

    pub fn acknowledgements(&self) -> (acknowledgements: Option<&AcknowledgementsConfig>)
        ensures
            acknowledgements == Some(&self.acknowledgements),
    {
        Some(&self.acknowledgements)
    }

    /// The bucket that the health check asks for.
    pub fn build_healthcheck(&self) -> (bucket: String)
        ensures
            bucket@ == self.bucket@,
    {
        self.bucket.clone()
    }

    /// What the sink needs to know to name and write an object: the settings
    /// as given, with the key prefix, the time format, whether to add a
    /// unique token (yes), and the request limits filled in where they were
    /// left out.
    pub fn build_processor(&self) -> (options: S3RequestOptions)
        ensures
            options.bucket@ == self.bucket@,
            options.key_prefix@ == text_or(self.key_prefix, default_key_prefix()),
            options.filename_time_format@ == text_or(
                self.filename_time_format,
                default_filename_time_format(),
            ),
            options.filename_append_uuid == match self.filename_append_uuid {
                Some(append) => append,
                None => true,
            },
            text_view(options.filename_extension) == text_view(self.filename_extension),
            options.compression == self.compression,
            options.request == self.request.filled(TowerRequestConfig::unset()),
    {
        let request = self.request.unwrap_with(&TowerRequestConfig::default());
        let key_prefix = match &self.key_prefix {
            Some(prefix) => prefix.clone(),
            None => String::from_str("date=%F/"),
        };
        let filename_time_format = match &self.filename_time_format {
            Some(format) => format.clone(),
            None => String::from_str("%s"),
        };
        let filename_append_uuid = match self.filename_append_uuid {
            Some(append) => append,
            None => true,
        };
        S3RequestOptions {
            bucket: self.bucket.clone(),
            key_prefix,
            filename_time_format,
            filename_append_uuid,
            filename_extension: clone_text(&self.filename_extension),
            compression: self.compression,
            request,
        }
    }
}

} // verus!
