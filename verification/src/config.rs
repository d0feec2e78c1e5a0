//! The configuration a record update needs, and how it is assembled from
//! optional environment values.

use vstd::prelude::*;

verus! {

/// The four values the updater needs. All of them are required; none has a
/// default, and no format validation is performed on any of them.
pub struct Config {
    /// Bearer token for the provider API (`CFTOKEN`).
    pub token: String,
    /// Identifier of the DNS zone that holds the record (`ZONE_ID`).
    pub zone_id: String,
    /// Identifier of the DNS record to overwrite (`DNS_RECORD_ID`).
    pub record_id: String,
    /// Fully-qualified domain name to write as the record name (`DOMAIN`).
    pub domain: String,
}

/// Which required configuration value is absent.
#[derive(Debug, Clone, Copy, PartialEq, Eq, Structural)]
pub enum ConfigError {
    MissingToken,
    MissingZoneId,
    MissingRecordId,
    MissingDomain,
}

/// The error reported when some of the four values are absent: the first
/// absent one, in the order token, zone, record, domain.
pub open spec fn first_missing(
    no_token: bool,
    no_zone: bool,
    no_record: bool,
    no_domain: bool,
) -> ConfigError {
    if no_token {
        ConfigError::MissingToken
    } else if no_zone {
        ConfigError::MissingZoneId
    } else if no_record {
        ConfigError::MissingRecordId
    } else {
        ConfigError::MissingDomain
    }
}

impl ConfigError {
    /// The name of the environment variable whose value is absent.
    pub fn variable_name(&self) -> (r: &'static str)
        ensures
            *self == ConfigError::MissingToken ==> r@ == "CFTOKEN"@,
            *self == ConfigError::MissingZoneId ==> r@ == "ZONE_ID"@,
            *self == ConfigError::MissingRecordId ==> r@ == "DNS_RECORD_ID"@,
            *self == ConfigError::MissingDomain ==> r@ == "DOMAIN"@,
    {
        match self {
            ConfigError::MissingToken => "CFTOKEN",
            ConfigError::MissingZoneId => "ZONE_ID",
            ConfigError::MissingRecordId => "DNS_RECORD_ID",
            ConfigError::MissingDomain => "DOMAIN",
        }
    }
}

impl Config {
    /// Assembles a configuration from the four looked-up values. It is
    /// complete exactly when every value is present; otherwise the first
    /// absent value is reported and the update must not be attempted.
    pub fn from_values(
        token: Option<String>,
        zone_id: Option<String>,
        record_id: Option<String>,
        domain: Option<String>,
    ) -> (r: Result<Config, ConfigError>)
        ensures
            r is Err <==> (token is None || zone_id is None || record_id is None
                || domain is None),
            r is Err ==> r->Err_0 == first_missing(
                token is None,
                zone_id is None,
                record_id is None,
                domain is None,
            ),
            r is Ok ==> {
                let c = r->Ok_0;
                &&& c.token@ == token->0@
                &&& c.zone_id@ == zone_id->0@
                &&& c.record_id@ == record_id->0@
                &&& c.domain@ == domain->0@
            },
    {
        let token = match token {
            Some(v) => v,
            None => {
                return Err(ConfigError::MissingToken);
            },
        };
        let zone_id = match zone_id {
            Some(v) => v,
            None => {
                return Err(ConfigError::MissingZoneId);
            },
        };
        let record_id = match record_id {
            Some(v) => v,
            None => {
                return Err(ConfigError::MissingRecordId);
            },
        };
        let domain = match domain {
            Some(v) => v,
            None => {
                return Err(ConfigError::MissingDomain);
            },
        };
        Ok(Config { token, zone_id, record_id, domain })
    }
}

} // verus!
