//! The registered crawl units, assembled once at startup. Construction
//! failure is fatal: it indicates a configuration defect.

use vstd::prelude::*;

use crate::collector::{Collector, ConfigError, Scraper};
use crate::context::parsed_url;
use crate::foo::Foo;

verus! {

/// The list of constructed crawl units to run.
#[derive(Debug)]
pub struct Plugins {
    pub collectors: Vec<Collector>,
}

impl Plugins {
    /// Build every registered crawl unit; any construction failure is
    /// handed to the caller as fatal. Construction succeeds exactly when
    /// Foo's configuration is sound, and the one collector is the one
    /// built for Foo: its name, starting address, pool size and registry
    /// are Foo's.
    pub fn new() -> (r: Result<Plugins, ConfigError>)
        ensures
            r is Ok <==> parsed_url(Foo::spec_address()) is Some && Foo::handlers_ok(),
            r matches Ok(p) ==> {
                &&& p.collectors@.len() == 1
                &&& p.collectors@[0].wf()
                &&& p.collectors@[0].crawler.handlers.wf()
                &&& !p.collectors@[0].running
                &&& p.collectors@[0].crawler.in_flight == 0
                &&& p.collectors@[0].name@ == "#foo#"@
                &&& parsed_url(Foo::spec_address()) == Some(p.collectors@[0].starting_address@)
                &&& p.collectors@[0].crawler.max_permit == Foo::spec_thread_count()
                &&& Foo::handlers_installed(p.collectors@[0].crawler.handlers)
            },
    {
        let collector = match Foo::build_collector("#foo#") {
            Ok(c) => c,
            Err(e) => {
                return Err(e);
            },
        };
        let mut collectors: Vec<Collector> = Vec::new();
        collectors.push(collector);
        Ok(Plugins { collectors })
    }
}

} // verus!
