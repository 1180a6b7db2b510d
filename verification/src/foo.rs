//! An example consumer of the engine: follows headline and read-more
//! links, and extracts the headline text of pages visited as news.

use vstd::prelude::*;

use crate::collector::{ConfigError, Handlers, Scraper, SelectorHandler};
use crate::context::{Context, ElementData, PageType};
use crate::dispatch::selector_ok;

verus! {

/// The tag under which the driver runs `title_line` for elements matched
/// by the headline selector.
pub const FOO_TITLE_TAG: usize = 0;

#[derive(Debug, Default)]
pub struct Foo {}

impl Scraper for Foo {
    open spec fn spec_address() -> Seq<char> {
        "https://navyrecognition.com/index.php/naval-news.html/"@
    }

    open spec fn handlers_ok() -> bool {
        &&& selector_ok("h3 > a"@)
        &&& selector_ok("p.readmore > a"@)
        &&& selector_ok(".entry-header > h1"@)
    }

    open spec fn handlers_installed(h: Handlers) -> bool {
        let n = h.selector_handler@.len() as int;
        &&& n >= 3
        &&& h.selector_handler@[n - 3].pattern@ == "h3 > a"@
        &&& (h.selector_handler@[n - 3].handler matches SelectorHandler::FollowHref { page }
            && page == PageType::Index)
        &&& h.selector_handler@[n - 2].pattern@ == "p.readmore > a"@
        &&& (h.selector_handler@[n - 2].handler matches SelectorHandler::FollowHref { page }
            && page matches PageType::News(_))
        &&& h.selector_handler@[n - 1].pattern@ == ".entry-header > h1"@
        &&& (h.selector_handler@[n - 1].handler matches SelectorHandler::External { tag } && tag
            == FOO_TITLE_TAG)
    }

    open spec fn spec_thread_count() -> usize {
        128
    }

    /// Follow `h3 > a` links as index pages and `p.readmore > a` links as
    /// news pages; hand `.entry-header > h1` matches to the headline
    /// continuation.
    fn get_handlers(adder: &mut Handlers) -> (r: Result<(), ConfigError>)
        ensures
            r matches Err(e) ==> e == ConfigError::InvalidSelector,
            r is Ok ==> {
                let n = old(adder).selector_handler@.len();
                &&& final(adder).selector_handler@.len() == n + 3
                &&& final(adder).selector_handler@[n as int].pattern@ == "h3 > a"@
                &&& (final(adder).selector_handler@[n as int].handler matches
                    SelectorHandler::FollowHref { page } && page == PageType::Index)
                &&& final(adder).selector_handler@[n as int + 1].pattern@ == "p.readmore > a"@
                &&& (final(adder).selector_handler@[n as int + 1].handler matches
                    SelectorHandler::FollowHref { page } && page matches PageType::News(_))
                &&& final(adder).selector_handler@[n as int + 2].pattern@ == ".entry-header > h1"@
                &&& (final(adder).selector_handler@[n as int + 2].handler matches
                    SelectorHandler::External { tag } && tag == FOO_TITLE_TAG)
                &&& final(adder).response_handler@ == old(adder).response_handler@
            },
    {
        match adder.on_selector(
            "h3 > a".to_owned(),
            SelectorHandler::FollowHref { page: PageType::index() },
        ) {
            Ok(_) => {},
            Err(e) => {
                return Err(e);
            },
        }
        match adder.on_selector(
            "p.readmore > a".to_owned(),
            SelectorHandler::FollowHref { page: PageType::news() },
        ) {
            Ok(_) => {},
            Err(e) => {
                return Err(e);
            },
        }
        match adder.on_selector(
            ".entry-header > h1".to_owned(),
            SelectorHandler::External { tag: FOO_TITLE_TAG },
        ) {
            Ok(_) => {},
            Err(e) => {
                return Err(e);
            },
        }
        Ok(())
    }

    fn starting_address() -> (r: String)
        ensures
            r@ == Self::spec_address(),
    {
        "https://navyrecognition.com/index.php/naval-news.html/".to_owned()
    }

    fn thread_count() -> (r: usize)
        ensures
            r == Self::spec_thread_count(),
    {
        128
    }
}

/// Foo's headline continuation: keep the matched element's text, but only
/// for a page visited under the news classification.
pub fn title_line(ctx: &Context, element: &ElementData) -> (r: Option<String>)
    ensures
        match ctx.page_type {
            PageType::News(_) => r matches Some(t) && t@ == element.text@,
            _ => r is None,
        },
{
    match &ctx.page_type {
        PageType::News(_) => Some(element.text.clone()),
        _ => None,
    }
}

} // verus!
