//! What the sampling profiler is started with. Starting and stopping the
//! profiler is left to the program; what it is started with is decided
//! here.

use vstd::prelude::*;
use crate::resource::Attribute;

verus! {

/// The settings of the sampling profiler of a service.
#[derive(Debug)]
pub struct ProfilerSettings {
    /// The URL of the profile collector.
    pub url: String,
    /// The name under which the profiles are filed.
    pub application_name: String,
    /// Samples per second.
    pub sample_rate: u32,
    /// Whether each sample names the id of its thread.
    pub report_thread_id: bool,
    /// Whether each sample names its thread.
    pub report_thread_name: bool,
    /// The tags that every profile carries.
    pub tags: Vec<Attribute>,
}

/// Samples that the profiler takes per second.
pub open spec fn spec_sample_rate() -> u32 {
    100
}

impl ProfilerSettings {
    /// The settings for a service: 100 samples per second, each with the
    /// id and the name of its thread, under the name of the service, with
    /// the tags `service_name` (the name of the service) and `language`
    /// (`rust`), in this order.
    pub fn for_service(url: &str, service_name: &str) -> (settings: ProfilerSettings)
        ensures
            settings.url@ == url@,
            settings.application_name@ == service_name@,
            settings.sample_rate == spec_sample_rate(),
            settings.report_thread_id,
            settings.report_thread_name,
            settings.tags@.len() == 2,
            settings.tags@[0].key@ == "service_name"@,
            settings.tags@[0].value@ == service_name@,
            settings.tags@[1].key@ == "language"@,
            settings.tags@[1].value@ == "rust"@,
    {
        let mut tags: Vec<Attribute> = Vec::new();
        tags.push(Attribute::new("service_name", service_name));
        tags.push(Attribute::new("language", "rust"));
        ProfilerSettings {
            url: url.to_owned(),
            application_name: service_name.to_owned(),
            sample_rate: 100,
            report_thread_id: true,
            report_thread_name: true,
            tags,
        }
    }
}

} // verus!
