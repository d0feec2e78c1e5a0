//! The run of the updater as one decision.
//!
//! The program issues a GET to learn its address and a PUT to write it
//! into the record. Everything between the two calls — whether the PUT may
//! be issued at all, and with which URL, headers and body — is decided
//! here, from the GET's outcome and the looked-up configuration values.
//! The unverified shell performs the calls and nothing more: on `Err` it
//! aborts without touching the provider, on `Ok` it sends the returned
//! request unchanged.

use vstd::prelude::*;

use crate::address::clean_address;
use crate::address::cleaned;
use crate::config::Config;
use crate::config::ConfigError;
use crate::config::first_missing;
use crate::request::UpdateRequest;
use crate::request::build_update;
use crate::request::request_matches;

verus! {

/// Why no update may be issued.
#[derive(Debug, Clone, Copy, PartialEq, Eq, Structural)]
pub enum PlanError {
    /// The GET for the caller's address failed; there is nothing to write.
    FetchFailed,
    /// A required configuration value is absent.
    MissingConfig(ConfigError),
}

/// The error a run reports: a failed fetch outranks missing configuration,
/// since the address is fetched first.
pub open spec fn plan_error_of(
    no_fetch: bool,
    no_token: bool,
    no_zone: bool,
    no_record: bool,
    no_domain: bool,
) -> PlanError {
    if no_fetch {
        PlanError::FetchFailed
    } else {
        PlanError::MissingConfig(first_missing(no_token, no_zone, no_record, no_domain))
    }
}

/// Decides one run of the updater. `fetched` is the raw body of the GET to
/// the IP-echo service, or `None` if that call failed; the other four are
/// the looked-up environment values. The update request is returned only
/// when the fetch succeeded and the configuration is complete — on any
/// `Err` no PUT is to be issued — and it carries the exact URL, headers
/// and payload for the cleaned address.
pub fn plan_update(
    fetched: Option<String>,
    token: Option<String>,
    zone_id: Option<String>,
    record_id: Option<String>,
    domain: Option<String>,
) -> (r: Result<UpdateRequest, PlanError>)
    ensures
        r is Err <==> (fetched is None || token is None || zone_id is None || record_id is None
            || domain is None),
        r is Err ==> r->Err_0 == plan_error_of(
            fetched is None,
            token is None,
            zone_id is None,
            record_id is None,
            domain is None,
        ),
        r is Ok ==> request_matches(
            r->Ok_0,
            token->0@,
            zone_id->0@,
            record_id->0@,
            domain->0@,
            cleaned(fetched->0@),
        ),
{
    let raw = match fetched {
        Some(body) => body,
        None => {
            return Err(PlanError::FetchFailed);
        },
    };
    let config = match Config::from_values(token, zone_id, record_id, domain) {
        Ok(c) => c,
        Err(e) => {
            return Err(PlanError::MissingConfig(e));
        },
    };
    let address = clean_address(raw.as_str());
    Ok(build_update(&config, address.as_str()))
}

} // verus!
