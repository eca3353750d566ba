use vstd::prelude::*;

use crate::error::ServiceError;
use crate::model::{service_from_config, MonitoredService, MonitoredServiceError};
use crate::monitoring::{all_urls_parse, create_services_from_config, first_invalid};
use crate::settings::FluxaConfig;

verus! {

/// Every configured target, in order; fails on the first entry whose URL
/// does not parse.
pub fn build_services(conf: &FluxaConfig) -> (r: Result<Vec<MonitoredService>, ServiceError>)
    ensures
        (r is Ok) == all_urls_parse(conf.services@),
        match r {
            Ok(services) => {
                &&& services@.len() == conf.services@.len()
                &&& forall|i: int|
                    0 <= i < services@.len() ==> service_from_config(conf.services@[i]) == Ok::<
                        MonitoredService,
                        MonitoredServiceError,
                    >(#[trigger] services@[i])
            },
            Err(e) => exists|i: int|
                first_invalid(conf.services@, i) && e == ServiceError::MonitoredService(
                    MonitoredServiceError::InvalidUrl(conf.services@[i].url),
                ),
        },
{
    create_services_from_config(&conf.services)
}

} // verus!
