use vrl_assignment::sinks::aws_s3::S3SinkConfig;
use vrl_assignment::sinks::common::{
    AcknowledgementsConfig, Compression, DataType, EncodingConfigWithFraming, Serializer,
    TcpKeepaliveConfig, TlsEnableableConfig, TowerRequestConfig,
};
use vrl_assignment::sinks::datadog_events::{get_api_base_endpoint, DatadogEventsConfig, Region};
use vrl_assignment::sinks::console::{ConsoleSinkConfig, Target};
use vrl_assignment::sinks::vector::{VectorConfig, VectorEncoder};
use vrl_assignment::sources::aws_sqs::{
    default_client_concurrency, default_poll_secs, default_true, default_visibility_timeout_secs,
    AwsSqsConfig, DeserializerConfig, FramingConfig,
};

/// Writes the table out as text and reads it back.
fn round_trip(table: &toml::Table) -> toml::Table {
    let text = toml::to_string(table).unwrap();
    text.parse::<toml::Table>().unwrap()
}

#[test]
fn v1_generate_config() {
    let config = VectorConfig::generate_config();
    assert_eq!(config.address(), "127.0.0.1:5000");
    assert_eq!(config.keepalive(), None);
    assert_eq!(*config.tls(), None);
    assert_eq!(config.send_buffer_bytes(), None);
    assert_eq!(config.acknowledgements(), AcknowledgementsConfig::default());

    let mut table = toml::Table::new();
    table.insert("address".to_string(), toml::Value::String(config.address().clone()));
    let read = round_trip(&table);
    assert_eq!(read, table);
    let again = VectorConfig::from_address(
        read["address"].as_str().unwrap().to_string(),
        AcknowledgementsConfig::default(),
    );
    assert_eq!(again.address(), config.address());
    assert_eq!(again.keepalive(), config.keepalive());
    assert_eq!(again.tls(), config.tls());
    assert_eq!(again.send_buffer_bytes(), config.send_buffer_bytes());
}

#[test]
fn generate_config() {
    let s3 = S3SinkConfig::generate_config();
    assert_eq!(s3.bucket, "");
    assert_eq!(s3.key_prefix, None);
    assert_eq!(s3.filename_time_format, None);
    assert_eq!(s3.filename_append_uuid, None);
    assert_eq!(s3.filename_extension, None);
    assert_eq!(s3.encoding, EncodingConfigWithFraming { framing: None, encoding: Serializer::Text });
    assert_eq!(s3.compression, Compression::gzip_default());
    assert!(s3.tls.is_some());
    let mut table = toml::Table::new();
    table.insert("bucket".to_string(), toml::Value::String(s3.bucket.clone()));
    table.insert("compression".to_string(), toml::Value::String("gzip".to_string()));
    assert_eq!(round_trip(&table), table);
}

#[test]
fn config_generate_config() {
    let datadog = DatadogEventsConfig::generate_config();
    assert_eq!(datadog.default_api_key, "${DATADOG_API_KEY_ENV_VAR}");
    assert_eq!(datadog.endpoint, None);
    assert_eq!(datadog.site, None);
    assert_eq!(datadog.region, None);
    assert_eq!(datadog.tls, None);
    let mut table = toml::Table::new();
    table.insert(
        "default_api_key".to_string(),
        toml::Value::String(datadog.default_api_key.clone()),
    );
    let read = round_trip(&table);
    assert_eq!(read["default_api_key"].as_str(), Some("${DATADOG_API_KEY_ENV_VAR}"));
}

#[test]
fn vector_config_keeps_what_it_is_given() {
    let keepalive = Some(TcpKeepaliveConfig { time_secs: Some(30) });
    let mut config = VectorConfig::new(
        "example.org:6000".to_string(),
        keepalive,
        None,
        Some(4096),
        AcknowledgementsConfig { enabled: Some(true) },
    );
    assert_eq!(config.address(), "example.org:6000");
    assert_eq!(config.keepalive(), keepalive);
    assert_eq!(config.send_buffer_bytes(), Some(4096));
    assert_eq!(config.acknowledgements(), AcknowledgementsConfig { enabled: Some(true) });
    assert_eq!(*config.tls(), None);
    config.set_tls(Some(TlsEnableableConfig::default()));
    assert_eq!(*config.tls(), Some(TlsEnableableConfig::default()));
    assert_eq!(config.address(), "example.org:6000");
    config.set_tls(None);
    assert_eq!(*config.tls(), None);

    let plain = VectorConfig::from_address("a:1".to_string(), AcknowledgementsConfig::default());
    assert_eq!(plain.address(), "a:1");
    assert_eq!(plain.keepalive(), None);
    assert_eq!(plain.send_buffer_bytes(), None);
}

#[test]
fn s3_request_options_fill_in_what_was_left_out() {
    let mut config = S3SinkConfig::generate_config();
    config.bucket = "logs".to_string();
    let options = config.build_processor();
    assert_eq!(options.bucket, "logs");
    assert_eq!(options.key_prefix, "date=%F/");
    assert_eq!(options.filename_time_format, "%s");
    assert!(options.filename_append_uuid);
    assert_eq!(options.filename_extension, None);
    assert_eq!(options.compression, Compression::Gzip(6));
    assert_eq!(options.request, TowerRequestConfig::default());

    config.key_prefix = Some("in/".to_string());
    config.filename_time_format = Some("%F".to_string());
    config.filename_append_uuid = Some(false);
    config.filename_extension = Some("json".to_string());
    config.compression = Compression::Uncompressed;
    config.request.concurrency = Some(4);
    let options = config.build_processor();
    assert_eq!(options.key_prefix, "in/");
    assert_eq!(options.filename_time_format, "%F");
    assert!(!options.filename_append_uuid);
    assert_eq!(options.filename_extension, Some("json".to_string()));
    assert_eq!(options.compression, Compression::Uncompressed);
    assert_eq!(options.request.concurrency, Some(4));
    assert_eq!(options.request.timeout_secs, None);

    assert_eq!(config.build_healthcheck(), "logs");
    assert_eq!(config.input(), DataType::log());
    assert_eq!(config.sink_type(), "aws_s3");
    assert_eq!(config.acknowledgements(), Some(&AcknowledgementsConfig::default()));
    config.encoding.encoding = Serializer::Json;
    assert_eq!(config.input(), DataType::log());
}

#[test]
fn request_limits_are_taken_from_the_defaults_where_unset() {
    let set = TowerRequestConfig { concurrency: Some(2), retry_attempts: Some(9), ..TowerRequestConfig::default() };
    let defaults = TowerRequestConfig { concurrency: Some(5), timeout_secs: Some(60), ..TowerRequestConfig::default() };
    let limits = set.unwrap_with(&defaults);
    assert_eq!(limits.concurrency, Some(2));
    assert_eq!(limits.timeout_secs, Some(60));
    assert_eq!(limits.retry_attempts, Some(9));
    assert_eq!(limits.rate_limit_num, None);
    assert_eq!(Serializer::Json.input_type(), DataType::all());
    assert_eq!(Serializer::Text.input_type(), DataType::log());
    assert_eq!(DataType::all().and(DataType::log()), DataType::log());
}

#[test]
fn datadog_endpoint_goes_by_endpoint_then_site_then_region() {
    let mut config = DatadogEventsConfig::generate_config();
    assert_eq!(config.get_api_events_endpoint(), "https://api.datadoghq.com/api/v1/events");
    config.region = Some(Region::Eu);
    assert_eq!(config.get_api_events_endpoint(), "https://api.datadoghq.eu/api/v1/events");
    config.region = Some(Region::Us);
    assert_eq!(config.get_api_events_endpoint(), "https://api.datadoghq.com/api/v1/events");
    config.site = Some("us3.datadoghq.com".to_string());
    assert_eq!(config.get_api_events_endpoint(), "https://api.us3.datadoghq.com/api/v1/events");
    config.endpoint = Some("http://localhost:8080".to_string());
    assert_eq!(config.get_api_events_endpoint(), "http://localhost:8080/api/v1/events");
    assert_eq!(get_api_base_endpoint(None, None, Some(Region::Eu)), "https://api.datadoghq.eu");
    let healthcheck = config.build_healthcheck();
    assert_eq!(healthcheck.validate_endpoint, "http://localhost:8080/api/v1/validate");
    assert_eq!(healthcheck.api_key, "${DATADOG_API_KEY_ENV_VAR}");
    let healthcheck = DatadogEventsConfig::generate_config().build_healthcheck();
    assert_eq!(healthcheck.validate_endpoint, "https://api.datadoghq.com/api/v1/validate");
    assert_eq!(config.sink_type(), "datadog_events");
    assert_eq!(config.input(), DataType::log());
    assert_eq!(config.request_settings(), TowerRequestConfig::default());
    assert_eq!(config.acknowledgements(), Some(&AcknowledgementsConfig { enabled: None }));
}

#[test]
fn frame_is_the_length_and_then_the_event() {
    let mut out = bytes::BytesMut::new();
    assert_eq!(VectorEncoder.encode(b"abc", &mut out), Ok(()));
    assert_eq!(&out[..], b"\x00\x00\x00\x03abc");
    assert_eq!(VectorEncoder.encode(b"", &mut out), Ok(()));
    assert_eq!(&out[..], b"\x00\x00\x00\x03abc\x00\x00\x00\x00");

    let event = vec![7u8; 0x0102_03];
    let mut out = bytes::BytesMut::with_capacity(2);
    assert_eq!(VectorEncoder.encode(&event, &mut out), Ok(()));
    assert_eq!(out.len(), event.len() + 4);
    assert_eq!(&out[..4], &[0x00, 0x01, 0x02, 0x03]);
    assert_eq!(&out[4..], &event[..]);
}

#[test]
fn console_settings() {
    let config = ConsoleSinkConfig::generate_config();
    assert_eq!(config.target, Target::Stdout);
    assert_eq!(Target::default(), Target::Stdout);
    assert_eq!(config.encoding, EncodingConfigWithFraming { framing: None, encoding: Serializer::Json });
    assert_eq!(config.acknowledgements(), Some(&AcknowledgementsConfig { enabled: None }));
    assert_eq!(config.input(), DataType::all());
    assert_eq!(config.sink_type(), "console");
    let text = ConsoleSinkConfig { target: Target::Stderr, encoding: EncodingConfigWithFraming { framing: None, encoding: Serializer::Text }, ..config };
    assert_eq!(text.input(), DataType::log());
}

#[test]
fn queue_settings() {
    assert_eq!(default_poll_secs(), 15);
    assert_eq!(default_visibility_timeout_secs(), 300);
    assert!(default_true());
    assert_eq!(default_client_concurrency(8), 8);
    assert_eq!(default_client_concurrency(0), 0);
    let config = AwsSqsConfig::generate_config(4);
    assert_eq!(config.queue_url, "");
    assert_eq!(config.poll_secs, 15);
    assert_eq!(config.visibility_timeout_secs, 300);
    assert!(config.delete_message);
    assert_eq!(config.client_concurrency, 4);
    assert_eq!(config.framing, FramingConfig::Bytes);
    assert_eq!(config.decoding, DeserializerConfig::Bytes);
    assert_eq!(config.tls, None);
    assert_eq!(config.outputs(), vec![DataType::log()]);
    assert_eq!(config.source_type(), "aws_sqs");
    assert!(config.can_acknowledge());
    let native = AwsSqsConfig { decoding: DeserializerConfig::Native, ..config };
    assert_eq!(native.outputs(), vec![DataType::all()]);
    assert_eq!(DeserializerConfig::Json.output_type(), DataType::log());
}
