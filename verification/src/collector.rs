//! Handler registry and crawl unit. The registry holds the ordered
//! matcher/handler triples a crawl unit is configured with before its
//! first fetch; selector patterns must compile at registration, so an
//! invalid one is a configuration error raised here, never during a
//! crawl. The crawl unit couples a scheduler with a starting address and
//! a run/idle flag, and detects quiescence by the in-flight counter.

use vstd::prelude::*;

use crate::context::{PageType, parse_url, parsed_url};
use crate::crawler::Crawler;
use crate::dispatch::{selector_compiles, selector_ok};

verus! {

/// Configuration failure raised while assembling a registry or a crawl
/// unit. These are fatal to the caller: they indicate a code or
/// configuration defect, not a transient network condition.
#[derive(Clone, Copy, Debug, PartialEq, Eq)]
pub enum ConfigError {
    /// A selector pattern does not compile under the selector grammar.
    InvalidSelector,
    /// The starting address is not an absolute URL.
    InvalidAddress,
}

/// What runs when a selector matches an element: follow the element's
/// `href` (resolved against the page address) into a new visit under the
/// given classification, or defer to a caller-supplied continuation
/// identified by its tag.
#[derive(Debug)]
pub enum SelectorHandler {
    FollowHref { page: PageType },
    External { tag: usize },
}

/// What runs when a response arrives: a caller-supplied continuation
/// identified by its tag.
#[derive(Clone, Copy, Debug, PartialEq, Eq)]
pub enum ResponseHandler {
    External { tag: usize },
}

/// One registered selector triple: the pattern (kept for the contracts;
/// it is known to compile) and the handler to run per matched element.
#[derive(Debug)]
pub struct SelectorEntry {
    pub pattern: String,
    pub handler: SelectorHandler,
}

/// Ordered collection of handlers for the two kinds of events, built once
/// per crawl unit before the crawl starts and immutable afterwards.
#[derive(Debug)]
pub struct Handlers {
    pub selector_handler: Vec<SelectorEntry>,
    pub response_handler: Vec<ResponseHandler>,
}

impl Handlers {
    /// The registered selector patterns, in registration order.
    pub open spec fn spec_patterns(&self) -> Seq<Seq<char>> {
        Seq::new(
            self.selector_handler@.len(),
            |i: int| self.selector_handler@[i].pattern@,
        )
    }

    /// Every registered selector pattern compiles: dispatch can never meet
    /// an invalid one.
    pub open spec fn wf(&self) -> bool {
        forall|i: int|
            0 <= i < self.selector_handler@.len() ==> #[trigger] selector_ok(
                self.selector_handler@[i].pattern@,
            )
    }

    /// An empty registry.
    pub fn new() -> (r: Handlers)
        ensures
            r.selector_handler@.len() == 0,
            r.response_handler@.len() == 0,
            r.wf(),
    {
        Handlers { selector_handler: Vec::new(), response_handler: Vec::new() }
    }

    /// Register a selector-matched handler. The pattern is compiled here;
    /// one that does not compile is rejected now, leaving the registry
    /// unchanged, so that dispatch never fails on a pattern.
    pub fn on_selector(&mut self, pattern: String, handler: SelectorHandler) -> (r: Result<
        (),
        ConfigError,
    >)
        ensures
            r is Ok <==> selector_ok(pattern@),
            r matches Err(e) ==> e == ConfigError::InvalidSelector && *final(self) == *old(self),
            r is Ok ==> final(self).selector_handler@ == old(self).selector_handler@.push(
                (SelectorEntry { pattern, handler }),
            ),
            final(self).response_handler@ == old(self).response_handler@,
            old(self).wf() ==> final(self).wf(),
    {
        if !selector_compiles(pattern.as_str()) {
            return Err(ConfigError::InvalidSelector);
        }
        let ghost old_entries = self.selector_handler@;
        self.selector_handler.push(SelectorEntry { pattern, handler });
        proof {
            assert forall|i: int|
                0 <= i < self.selector_handler@.len() && old(self).wf() implies #[trigger]
            selector_ok(self.selector_handler@[i].pattern@) by {
                if i < old_entries.len() {
                    assert(self.selector_handler@[i] == old_entries[i]);
                }
            }
        }
        Ok(())
    }

    /// Register a response handler; registering one cannot fail.
    pub fn on_response(&mut self, handler: ResponseHandler)
        ensures
            final(self).response_handler@ == old(self).response_handler@.push(handler),
            final(self).selector_handler@ == old(self).selector_handler@,
            old(self).wf() ==> final(self).wf(),
    {
        self.response_handler.push(handler);
    }
}

impl Default for Handlers {
    fn default() -> (r: Handlers)
        ensures
            r.selector_handler@.len() == 0,
            r.response_handler@.len() == 0,
            r.wf(),
    {
        Handlers::new()
    }
}

/// Law: in a well-formed registry every selector matcher was compiled from
/// a valid pattern — compiling an invalid pattern fails at registration,
/// never at dispatch time.
pub proof fn lemma_registered_selectors_compile(h: Handlers)
    ensures
        h.wf() ==> forall|i: int|
            0 <= i < h.spec_patterns().len() ==> selector_ok(#[trigger] h.spec_patterns()[i]),
{
}

/// A crawl unit: a scheduler, the (normalized) starting address its seed
/// visit fetches under the `Index` classification, a run/idle flag, and a
/// name for the logs. The driver seeds the first visit, then polls
/// `poll_quiesce` on an interval until it reports completion.
#[derive(Debug)]
pub struct Collector {
    pub crawler: Crawler,
    pub running: bool,
    pub starting_address: String,
    pub name: String,
}

impl Collector {
    pub open spec fn wf(&self) -> bool {
        self.crawler.wf()
    }

    /// The seed visit's target: the starting address, visited as an index
    /// page.
    pub fn seed_target(&self) -> (r: (String, PageType))
        ensures
            r.0@ == self.starting_address@,
            r.1 == PageType::Index,
    {
        (self.starting_address.clone(), PageType::index())
    }

    /// Record that the crawl is under way (the seed visit has been
    /// launched).
    pub fn mark_running(&mut self)
        ensures
            final(self).running,
            final(self).crawler == old(self).crawler,
            final(self).starting_address == old(self).starting_address,
            final(self).name == old(self).name,
    {
        self.running = true;
    }

    /// One round of the completion check: the crawl is over exactly when
    /// no visit is in flight — counting visits that have been spawned but
    /// have not yet taken a permit, so completion is never reported while
    /// a launched child visit is still outstanding. On completion the
    /// unit marks itself idle.
    pub fn poll_quiesce(&mut self) -> (r: bool)
        ensures
            r == (old(self).crawler.in_flight == 0),
            r ==> !final(self).running,
            !r ==> final(self).running == old(self).running,
            final(self).crawler == old(self).crawler,
            final(self).starting_address == old(self).starting_address,
            final(self).name == old(self).name,
    {
        if self.crawler.quiescent() {
            self.running = false;
            true
        } else {
            false
        }
    }
}

/// Check a crawl unit's starting address: the normalized absolute URL it
/// parses to, or the fatal configuration error when it is not one.
pub fn resolve_start_address(address: &str) -> (r: Result<String, ConfigError>)
    ensures
        match parsed_url(address@) {
            Some(u) => r matches Ok(s) && s@ == u,
            None => r == Err::<String, ConfigError>(ConfigError::InvalidAddress),
        },
{
    match parse_url(address) {
        Some(u) => Ok(u),
        None => Err(ConfigError::InvalidAddress),
    }
}

/// What makes a crawl unit: a starting address, a concurrency limit, a
/// user-agent string, and the handler wiring, supplied by the consumer
/// and assembled once at construction.
pub trait Scraper {
    /// The starting address, as the contracts speak of it.
    spec fn spec_address() -> Seq<char>;

    /// Whether this unit's handler wiring succeeds: for selector
    /// registrations, that every pattern compiles. Registration success
    /// depends on the unit's fixed configuration, not on the registry it
    /// is installed into.
    spec fn handlers_ok() -> bool;

    /// What a registry looks like once this unit's handlers have been
    /// installed into it.
    spec fn handlers_installed(h: Handlers) -> bool;

    /// The configured bound on simultaneously in-flight fetches; sixteen
    /// unless the unit says otherwise.
    open spec fn spec_thread_count() -> usize {
        16
    }

    /// Install this crawl unit's handlers into the registry. Called
    /// exactly once, at construction; a selector that does not compile
    /// surfaces here as a fatal configuration error.
    fn get_handlers(adder: &mut Handlers) -> (r: Result<(), ConfigError>)
        ensures
            old(adder).wf() ==> final(adder).wf(),
            r is Ok <==> Self::handlers_ok(),
            r is Ok ==> Self::handlers_installed(*final(adder)),
    ;

    /// The absolute URL the seed visit fetches.
    fn starting_address() -> (r: String)
        ensures
            r@ == Self::spec_address(),
    ;

    /// The bound on simultaneously in-flight fetches.
    fn thread_count() -> (r: usize)
        ensures
            r == Self::spec_thread_count(),
    ;

    /// How the engine identifies itself over HTTP.
    fn user_agent() -> (r: String) {
        "testing_my_lib".to_owned()
    }

    /// Assemble a crawl unit: parse the starting address (failure is
    /// fatal — a configuration defect, not a transient condition), build
    /// the registry through `get_handlers`, and couple both with a fresh
    /// scheduler. Construction succeeds exactly when the address is an
    /// absolute URL and the handler wiring succeeds; the result carries
    /// the configured address, pool size and registry. The HTTP client
    /// itself belongs to the driver, which builds it from `user_agent`.
    fn build_collector(name: &str) -> (r: Result<Collector, ConfigError>)
        ensures
            r is Ok <==> parsed_url(Self::spec_address()) is Some && Self::handlers_ok(),
            parsed_url(Self::spec_address()) is None ==> r == Err::<Collector, ConfigError>(
                ConfigError::InvalidAddress,
            ),
            r matches Ok(c) ==> {
                &&& c.wf()
                &&& c.crawler.handlers.wf()
                &&& !c.running
                &&& c.crawler.in_flight == 0
                &&& c.crawler.free_permits == c.crawler.max_permit
                &&& c.name@ == name@
                &&& parsed_url(Self::spec_address()) == Some(c.starting_address@)
                &&& c.crawler.max_permit == Self::spec_thread_count()
                &&& Self::handlers_installed(c.crawler.handlers)
            },
    {
        let address = Self::starting_address();
        let resolved = match resolve_start_address(address.as_str()) {
            Ok(u) => u,
            Err(e) => {
                return Err(e);
            },
        };
        let mut handlers = Handlers::new();
        match Self::get_handlers(&mut handlers) {
            Ok(_) => {},
            Err(e) => {
                return Err(e);
            },
        }
        let crawler = Crawler::new(Self::thread_count(), handlers);
        Ok(
            Collector {
                crawler,
                running: false,
                starting_address: resolved,
                name: name.to_owned(),
            },
        )
    }
}

} // verus!
