use crawlkit::collector::{
    ConfigError, Handlers, ResponseHandler, Scraper, SelectorHandler, resolve_start_address,
};
use crawlkit::context::{Context, ElementData, PageType};
use crawlkit::dispatch::{HandlerAction, Invocation, run_selector_handler, try_dispatch_plan};
use crawlkit::foo::{FOO_TITLE_TAG, Foo, title_line};

#[test]
fn invalid_selector_rejected_at_registration() {
    let mut h = Handlers::new();
    let r = h.on_selector(
        "][not-a-selector".to_string(),
        SelectorHandler::External { tag: 0 },
    );
    assert_eq!(r, Err(ConfigError::InvalidSelector));
    assert_eq!(h.selector_handler.len(), 0);
}

#[test]
fn valid_selector_registered() {
    let mut h = Handlers::new();
    assert!(h.on_selector("h3 > a".to_string(), SelectorHandler::External { tag: 7 }).is_ok());
    assert_eq!(h.selector_handler.len(), 1);
    assert_eq!(h.selector_handler[0].pattern, "h3 > a");
}

#[test]
fn registered_registry_never_fails_at_dispatch() {
    let mut h = Handlers::new();
    h.on_selector("h3 > a".to_string(), SelectorHandler::External { tag: 0 }).unwrap();
    h.on_selector("p.readmore > a".to_string(), SelectorHandler::External { tag: 1 }).unwrap();
    h.on_response(ResponseHandler::External { tag: 2 });
    let doc = "<html><body><h3><a href=\"/x\">x</a></h3></body></html>".to_string();
    assert!(try_dispatch_plan(&h, &doc).is_some());
    assert!(try_dispatch_plan(&h, &String::new()).is_some());
}

#[test]
fn dispatch_order_responses_then_matches_in_document_order() {
    let mut h = Handlers::new();
    h.on_response(ResponseHandler::External { tag: 10 });
    h.on_response(ResponseHandler::External { tag: 11 });
    h.on_selector("h3 > a".to_string(), SelectorHandler::External { tag: 0 }).unwrap();
    let doc = "<html><body>\
               <h3><a href=\"/first\">one</a></h3>\
               <h3><a href=\"/second\">two</a></h3>\
               </body></html>"
        .to_string();
    let plan = try_dispatch_plan(&h, &doc).unwrap();
    assert_eq!(plan.len(), 4);
    assert!(matches!(plan[0], Invocation::OnResponse { index: 0 }));
    assert!(matches!(plan[1], Invocation::OnResponse { index: 1 }));
    match &plan[2] {
        Invocation::OnMatch { entry, element } => {
            assert_eq!(*entry, 0);
            assert_eq!(element.href, Some("/first".to_string()));
            assert_eq!(element.text, "one");
        }
        _ => panic!("expected a selector match"),
    }
    match &plan[3] {
        Invocation::OnMatch { entry, element } => {
            assert_eq!(*entry, 0);
            assert_eq!(element.href, Some("/second".to_string()));
            assert_eq!(element.text, "two");
        }
        _ => panic!("expected a selector match"),
    }
}

#[test]
fn selector_entries_dispatch_in_registration_order() {
    let mut h = Handlers::new();
    h.on_selector("p > a".to_string(), SelectorHandler::External { tag: 0 }).unwrap();
    h.on_selector("h3 > a".to_string(), SelectorHandler::External { tag: 1 }).unwrap();
    let doc = "<html><body>\
               <h3><a href=\"/h\">h</a></h3>\
               <p><a href=\"/p\">p</a></p>\
               </body></html>"
        .to_string();
    let plan = try_dispatch_plan(&h, &doc).unwrap();
    assert_eq!(plan.len(), 2);
    match &plan[0] {
        Invocation::OnMatch { entry, element } => {
            assert_eq!(*entry, 0);
            assert_eq!(element.href, Some("/p".to_string()));
        }
        _ => panic!("expected a selector match"),
    }
    match &plan[1] {
        Invocation::OnMatch { entry, element } => {
            assert_eq!(*entry, 1);
            assert_eq!(element.href, Some("/h".to_string()));
        }
        _ => panic!("expected a selector match"),
    }
}

#[test]
fn follow_href_handler_yields_visit() {
    let ctx = Context {
        page_type: PageType::index(),
        current_address: "https://a.example/".to_string(),
    };
    let handler = SelectorHandler::FollowHref { page: PageType::index() };
    let element = ElementData { href: Some("/b".to_string()), text: String::new() };
    match run_selector_handler(&handler, &ctx, &element) {
        HandlerAction::Visit { url, page } => {
            assert_eq!(url, "https://a.example/b");
            assert!(matches!(page, PageType::Index));
        }
        _ => panic!("expected a visit action"),
    }
}

#[test]
fn follow_href_handler_short_circuits_without_href() {
    let ctx = Context {
        page_type: PageType::index(),
        current_address: "https://a.example/".to_string(),
    };
    let handler = SelectorHandler::FollowHref { page: PageType::news() };
    let element = ElementData { href: None, text: "no link".to_string() };
    assert!(matches!(run_selector_handler(&handler, &ctx, &element), HandlerAction::Nothing));
}

#[test]
fn external_handler_defers_to_driver() {
    let ctx = Context {
        page_type: PageType::index(),
        current_address: "https://a.example/".to_string(),
    };
    let handler = SelectorHandler::External { tag: 42 };
    let element = ElementData { href: None, text: String::new() };
    assert!(matches!(
        run_selector_handler(&handler, &ctx, &element),
        HandlerAction::Defer { tag: 42 }
    ));
}

#[test]
fn foo_handlers_register_and_compile() {
    let mut h = Handlers::new();
    assert!(Foo::get_handlers(&mut h).is_ok());
    assert_eq!(h.selector_handler.len(), 3);
    assert_eq!(h.selector_handler[0].pattern, "h3 > a");
    assert_eq!(h.selector_handler[1].pattern, "p.readmore > a");
    assert_eq!(h.selector_handler[2].pattern, ".entry-header > h1");
    assert!(matches!(
        h.selector_handler[2].handler,
        SelectorHandler::External { tag: FOO_TITLE_TAG }
    ));
    let doc = "<div class=\"entry-header\"><h1>Headline</h1></div>".to_string();
    assert!(try_dispatch_plan(&h, &doc).is_some());
}

#[test]
fn foo_title_line_only_on_news_pages() {
    let element = ElementData { href: None, text: " Headline ".to_string() };
    let news_ctx = Context {
        page_type: PageType::news(),
        current_address: "https://a.example/".to_string(),
    };
    assert_eq!(title_line(&news_ctx, &element), Some(" Headline ".to_string()));
    let index_ctx = Context {
        page_type: PageType::index(),
        current_address: "https://a.example/".to_string(),
    };
    assert_eq!(title_line(&index_ctx, &element), None);
}

#[test]
fn start_address_resolution() {
    assert_eq!(
        resolve_start_address("HTTPS://EXAMPLE.COM"),
        Ok("https://example.com/".to_string())
    );
    assert_eq!(resolve_start_address("not a url"), Err(ConfigError::InvalidAddress));
}

#[test]
fn foo_collector_builds() {
    let c = Foo::build_collector("#foo#").unwrap();
    assert_eq!(c.crawler.max_permit, 128);
    assert_eq!(c.crawler.free_permits, 128);
    assert_eq!(c.crawler.in_flight, 0);
    assert!(!c.running);
    assert_eq!(c.name, "#foo#");
    assert_eq!(c.starting_address, "https://navyrecognition.com/index.php/naval-news.html/");
    assert_eq!(c.crawler.handlers.selector_handler.len(), 3);
}
