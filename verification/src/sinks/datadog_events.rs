//! The settings of the sink that sends events to the events service.

use vstd::prelude::*;
use crate::sinks::common::{
    AcknowledgementsConfig, DataType, TlsEnableableConfig, TowerRequestConfig,
};

verus! {

/// A region of the service.
#[derive(Clone, Copy, Debug, PartialEq, Eq, Structural)]
pub enum Region {
    Us,
    Eu,
}

/// The settings of the sink.
#[derive(Clone, Debug)]
pub struct DatadogEventsConfig {
    /// The address to send events to.
    pub endpoint: Option<String>,
    /// The region to send events to; `site` goes before it.
    pub region: Option<Region>,
    /// The site to send events to.
    pub site: Option<String>,
    /// The key to send events with where an event has none of its own.
    pub default_api_key: String,
    pub tls: Option<TlsEnableableConfig>,
    pub request: TowerRequestConfig,
    pub acknowledgements: AcknowledgementsConfig,
}

/// The domain of the service: the site where one is set, else that of the
/// region, else that of the first region.
pub open spec fn base_domain(site: Option<String>, region: Option<Region>) -> Seq<char> {
    match site {
        Some(site) => site@,
        None => match region {
            Some(Region::Eu) => "datadoghq.eu"@,
            _ => "datadoghq.com"@,
        },
    }
}

/// The address of the service: the endpoint where one is set, else the
/// secure address of `api` at the domain.
pub open spec fn api_base_endpoint(
    endpoint: Option<String>,
    site: Option<String>,
    region: Option<Region>,
) -> Seq<char> {
    match endpoint {
        Some(endpoint) => endpoint@,
        None => "https://api."@ + base_domain(site, region),
    }
}

/// What checking the health of the service takes: the address to ask, and
/// the key to ask with.
#[derive(Clone, Debug, PartialEq, Eq)]
pub struct Healthcheck {
    pub validate_endpoint: String,
    pub api_key: String,
}

/// The address of the service.
pub fn get_api_base_endpoint(
    endpoint: Option<&String>,
    site: Option<&String>,
    region: Option<Region>,
) -> (address: String)
    ensures
        address@ == api_base_endpoint(
            match endpoint {
                Some(endpoint) => Some(*endpoint),
                None => None,
            },
            match site {
                Some(site) => Some(*site),
                None => None,
            },
            region,
        ),
{
    match endpoint {
        Some(endpoint) => endpoint.clone(),
        None => {
            let mut address = String::from_str("https://api.");
            match site {
                Some(site) => {
                    address.append(site.as_str());
                },
                None => match region {
                    Some(Region::Eu) => {
                        address.append("datadoghq.eu");
                    },
                    _ => {
                        address.append("datadoghq.com");
                    },
                },
            }
            address
        },
    }
}

impl DatadogEventsConfig {
    /// Settings to start from: the key read from the surroundings of the
    /// process, everything else left out.
    pub fn generate_config() -> (config: DatadogEventsConfig)
        ensures
            config.endpoint is None,
            config.region is None,
            config.site is None,
            config.default_api_key@ == "${DATADOG_API_KEY_ENV_VAR}"@,
            config.tls is None,
            config.request == TowerRequestConfig::unset(),
            config.acknowledgements == (AcknowledgementsConfig { enabled: None }),
    {
        DatadogEventsConfig {
            endpoint: None,
            region: None,
            site: None,
            default_api_key: String::from_str("${DATADOG_API_KEY_ENV_VAR}"),
            tls: None,
            request: TowerRequestConfig::default(),
            acknowledgements: AcknowledgementsConfig::default(),
        }
    }

    /// The address that events are sent to.
    pub fn get_api_events_endpoint(&self) -> (address: String)
        ensures
            address@ == api_base_endpoint(self.endpoint, self.site, self.region)
                + "/api/v1/events"@,
    {
        let mut address = get_api_base_endpoint(
            self.endpoint.as_ref(),
            self.site.as_ref(),
            self.region,
        );
        address.append("/api/v1/events");
        address
    }

    /// What checking the health of the service takes: the address at which
    /// the service checks a key, and the key of these settings.
    pub fn build_healthcheck(&self) -> (healthcheck: Healthcheck)
        ensures
            healthcheck.validate_endpoint@ == api_base_endpoint(
                self.endpoint,
                self.site,
                self.region,
            ) + "/api/v1/validate"@,
            healthcheck.api_key@ == self.default_api_key@,
    {
        let mut validate_endpoint = get_api_base_endpoint(
            self.endpoint.as_ref(),
            self.site.as_ref(),
            self.region,
        );
        validate_endpoint.append("/api/v1/validate");
        Healthcheck { validate_endpoint, api_key: self.default_api_key.clone() }
    }

    /// The limits on the requests that the sink makes.
    pub fn request_settings(&self) -> (limits: TowerRequestConfig)
        ensures
            limits == self.request.filled(TowerRequestConfig::unset()),
    {
        self.request.unwrap_with(&TowerRequestConfig::default())
    }

    /// The kinds of event that the sink takes in: log events.
    pub fn input(&self) -> (data_type: DataType)
        ensures
            data_type == (DataType { log: true, metric: false, trace: false }),
    {
        DataType::log()
    }

    /// The name of the kind of sink.
    pub fn sink_type(&self) -> (name: &'static str)
        ensures
            name@ == "datadog_events"@,
    {
        "datadog_events"
    }

    pub fn acknowledgements(&self) -> (acknowledgements: Option<&AcknowledgementsConfig>)
        ensures
            acknowledgements == Some(&self.acknowledgements),
    {
        Some(&self.acknowledgements)
    }
}

} // verus!
