//! The dispatch pipeline for one visit: run every response handler once,
//! in registration order, then every selector handler once per matched
//! element, entries in registration order and matches in document order.

use vstd::prelude::*;

use crate::collector::{Handlers, SelectorHandler};
use crate::context::{Context, ElementData, PageType, joined_url};

verus! {

/// The side effect a handler invocation asks the driver to launch: a
/// recursive visit of an extracted absolute URL, a caller-supplied
/// continuation, or nothing (the preprocessor short-circuited).
#[derive(Debug)]
pub enum HandlerAction {
    Visit { url: String, page: PageType },
    Defer { tag: usize },
    Nothing,
}

/// Whether the pattern compiles under the CSS-like structural-selector
/// grammar; a pure function of the pattern text.
pub uninterp spec fn selector_ok(pattern: Seq<char>) -> bool;

/// The elements of the document matching the selector compiled from the
/// pattern, in document order, each reduced to its `href` attribute and
/// its concatenated text; a pure function of document and pattern.
pub uninterp spec fn matches_in(doc: Seq<char>, pattern: Seq<char>) -> Seq<
    (Option<Seq<char>>, Seq<char>),
>;

/// Relies on scraper::Selector::parse: whether the pattern compiles under
/// the selector grammar.
#[verifier::external_body]
pub(crate) fn selector_compiles(pattern: &str) -> (r: bool)
    ensures
        r == selector_ok(pattern@),
{
    scraper::Selector::parse(pattern).is_ok()
}

/// Relies on scraper::Selector::parse, scraper::Html::parse_document and
/// scraper::Html::select: the matched elements in document order, each
/// reduced to its `href` attribute and its concatenated text.
#[verifier::external_body]
fn select_matches(doc: &str, pattern: &str) -> (r: Vec<ElementData>)
    requires
        selector_ok(pattern@),
    ensures
        r@.map_values(|e: ElementData| e.parts()) == matches_in(doc@, pattern@),
{
    let selector = scraper::Selector::parse(pattern).unwrap();
    let html = scraper::Html::parse_document(doc);
    html.select(&selector)
        .map(|e| ElementData {
            href: e.value().attr("href").map(|h| h.to_string()),
            text: e.text().collect::<String>(),
        })
        .collect()
}

/// One step of a visit's dispatch: run the response handler at `index`, or
/// run the selector handler of entry `entry` on one matched element.
#[derive(Debug)]
pub enum Invocation {
    OnResponse { index: usize },
    OnMatch { entry: usize, element: ElementData },
}

/// An invocation reduced to its mathematical content.
pub enum PlanStep {
    Response { index: int },
    Match { entry: int, element: (Option<Seq<char>>, Seq<char>) },
}

/// The mathematical content of one invocation.
pub open spec fn step_of(iv: Invocation) -> PlanStep {
    match iv {
        Invocation::OnResponse { index } => PlanStep::Response { index: index as int },
        Invocation::OnMatch { entry, element } => PlanStep::Match {
            entry: entry as int,
            element: element.parts(),
        },
    }
}

/// The response-handler stage: every response handler once, in
/// registration order.
pub open spec fn response_plan(n_response: int) -> Seq<PlanStep> {
    Seq::new(n_response as nat, |i: int| PlanStep::Response { index: i })
}

/// One selector entry's stage: its matched elements in document order.
pub open spec fn entry_plan(entry: int, elems: Seq<(Option<Seq<char>>, Seq<char>)>) -> Seq<
    PlanStep,
> {
    Seq::new(elems.len(), |j: int| PlanStep::Match { entry, element: elems[j] })
}

/// The selector stage: each entry's matches, entries in registration
/// order.
pub open spec fn selector_plan(patterns: Seq<Seq<char>>, doc: Seq<char>) -> Seq<PlanStep>
    decreases patterns.len(),
{
    if patterns.len() == 0 {
        Seq::empty()
    } else {
        selector_plan(patterns.drop_last(), doc) + entry_plan(
            patterns.len() - 1,
            matches_in(doc, patterns.last()),
        )
    }
}

/// The whole dispatch order of one visit: the response stage, then the
/// selector stage.
pub open spec fn full_plan(n_response: int, patterns: Seq<Seq<char>>, doc: Seq<char>) -> Seq<
    PlanStep,
> {
    response_plan(n_response) + selector_plan(patterns, doc)
}

proof fn lemma_selector_plan_snoc(patterns: Seq<Seq<char>>, doc: Seq<char>, s: int)
    requires
        0 <= s < patterns.len(),
    ensures
        selector_plan(patterns.take(s + 1), doc) == selector_plan(patterns.take(s), doc)
            + entry_plan(s, matches_in(doc, patterns[s])),
{
    let taken = patterns.take(s + 1);
    assert(taken.drop_last() =~= patterns.take(s));
    assert(taken.last() == patterns[s]);
}

impl Handlers {
    /// The dispatch order this registry produces for the given document.
    pub open spec fn spec_plan(&self, doc: Seq<char>) -> Seq<PlanStep> {
        full_plan(self.response_handler@.len() as int, self.spec_patterns(), doc)
    }
}

/// Build the dispatch order for one visit of a parsed document: every
/// response handler once, in registration order, then, for every selector
/// entry in registration order, one invocation per matched element in
/// document order.
pub fn dispatch_plan(handlers: &Handlers, doc: &String) -> (r: Vec<Invocation>)
    requires
        handlers.wf(),
    ensures
        r@.map_values(|iv: Invocation| step_of(iv)) == handlers.spec_plan(doc@),
{
    let ghost patterns = handlers.spec_patterns();
    let n_response = handlers.response_handler.len();
    let mut plan: Vec<Invocation> = Vec::new();
    let mut i: usize = 0;
    while i < n_response
        invariant
            i <= n_response,
            plan@.len() == i,
            forall|k: int| 0 <= k < i ==> step_of(#[trigger] plan@[k]) == (PlanStep::Response {
                index: k,
            }),
        decreases n_response - i,
    {
        plan.push(Invocation::OnResponse { index: i });
        i = i + 1;
    }
    let mut s: usize = 0;
    while s < handlers.selector_handler.len()
        invariant
            s <= handlers.selector_handler@.len(),
            patterns == handlers.spec_patterns(),
            handlers.wf(),
            n_response == handlers.response_handler@.len(),
            plan@.len() == n_response + selector_plan(patterns.take(s as int), doc@).len(),
            forall|k: int| 0 <= k < plan@.len() ==> step_of(#[trigger] plan@[k]) == full_plan(
                n_response as int,
                patterns.take(s as int),
                doc@,
            )[k],
        decreases handlers.selector_handler@.len() - s,
    {
        let ghost plan_before = plan@;
        let ghost elems_all = matches_in(doc@, patterns[s as int]);
        let mut elems = select_matches(doc.as_str(), handlers.selector_handler[s].pattern.as_str());
        let ghost n_elems = elems@.len();
        let ghost mut j: int = 0;
        while elems.len() > 0
            invariant
                0 <= j,
                j + elems@.len() == n_elems,
                elems_all.len() == n_elems,
                forall|q: int| 0 <= q < elems@.len() ==> (#[trigger] elems@[q]).parts()
                    == elems_all[j + q],
                plan@.len() == plan_before.len() + j,
                plan@.subrange(0, plan_before.len() as int) == plan_before,
                forall|k: int| plan_before.len() <= k < plan@.len() ==> step_of(
                    #[trigger] plan@[k],
                ) == (PlanStep::Match {
                    entry: s as int,
                    element: elems_all[k - plan_before.len()],
                }),
            decreases elems@.len(),
        {
            let ghost plan_prev = plan@;
            let e = elems.remove(0);
            plan.push(Invocation::OnMatch { entry: s, element: e });
            proof {
                assert(plan@.subrange(0, plan_before.len() as int) =~= plan_prev.subrange(
                    0,
                    plan_before.len() as int,
                ));
                j = j + 1;
            }
        }
        proof {
            lemma_selector_plan_snoc(patterns, doc@, s as int);
            let next = full_plan(n_response as int, patterns.take(s as int + 1), doc@);
            assert forall|k: int| 0 <= k < plan@.len() implies step_of(#[trigger] plan@[k])
                == next[k] by {
                if k < plan_before.len() {
                    assert(plan@[k] == plan_before[k]);
                }
            }
        }
        s = s + 1;
    }
    proof {
        assert(patterns.take(patterns.len() as int) =~= patterns);
        assert(plan@.map_values(|iv: Invocation| step_of(iv)) =~= handlers.spec_plan(doc@));
    }
    plan
}

/// Check every registered pattern and build the dispatch order, or report
/// that some pattern does not compile. A registry assembled through
/// `on_selector` always passes the check.
pub fn try_dispatch_plan(handlers: &Handlers, doc: &String) -> (r: Option<Vec<Invocation>>)
    ensures
        r is Some <==> handlers.wf(),
        r matches Some(plan) ==> plan@.map_values(|iv: Invocation| step_of(iv))
            == handlers.spec_plan(doc@),
{
    let mut s: usize = 0;
    while s < handlers.selector_handler.len()
        invariant
            s <= handlers.selector_handler@.len(),
            forall|i: int| 0 <= i < s ==> #[trigger] selector_ok(
                handlers.selector_handler@[i].pattern@,
            ),
        decreases handlers.selector_handler@.len() - s,
    {
        if !selector_compiles(handlers.selector_handler[s].pattern.as_str()) {
            return None;
        }
        s = s + 1;
    }
    Some(dispatch_plan(handlers, doc))
}

/// Run one selector handler on one matched element: the preprocessor
/// extracts a key (an absolute URL for a follow handler) and may
/// short-circuit; with a key present the processor's work is returned as
/// the action to launch.
pub fn run_selector_handler(handler: &SelectorHandler, ctx: &Context, element: &ElementData) -> (r:
    HandlerAction)
    ensures
        match *handler {
            SelectorHandler::FollowHref { page } => match element.href {
                Some(h) => match joined_url(ctx.current_address@, h@) {
                    Some(u) => r matches HandlerAction::Visit { url, page: p } && url@ == u && p
                        == page,
                    None => r == HandlerAction::Nothing,
                },
                None => r == HandlerAction::Nothing,
            },
            SelectorHandler::External { tag } => r == HandlerAction::Defer { tag },
        },
{
    match handler {
        SelectorHandler::FollowHref { page } => match ctx.parse_href(element) {
            Some(url) => HandlerAction::Visit { url, page: page.clone() },
            None => HandlerAction::Nothing,
        },
        SelectorHandler::External { tag } => HandlerAction::Defer { tag: *tag },
    }
}

} // verus!
