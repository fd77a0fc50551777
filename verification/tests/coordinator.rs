use link_coordinator::generation::RequestGenerationId;
use link_coordinator::link::CssomStylesheet;
use link_coordinator::link::DocumentContext;
use link_coordinator::link::ElementCreator;
use link_coordinator::link::HTMLLinkElement;
use link_coordinator::link::LinkAttribute;
use link_coordinator::link::ProtocolAction;
use link_coordinator::link::StylesheetHandle;

fn ctx() -> DocumentContext {
    DocumentContext {
        base_url: String::from("https://example.com/a/b.html"),
        has_browsing_context: true,
        is_top_level: true,
    }
}

fn stylesheet_element_in_tree() -> HTMLLinkElement {
    let mut e = HTMLLinkElement::new(ElementCreator::ScriptCreated);
    e.rel = Some(String::from("stylesheet"));
    let a = e.bind_to_tree(&ctx(), true);
    assert_eq!(a, ProtocolAction::Nothing);
    e
}

#[test]
fn new_element_starts_blank() {
    let e = HTMLLinkElement::new(ElementCreator::ParserCreated);
    assert!(e.parser_inserted());
    assert_eq!(e.get_request_generation_id(), RequestGenerationId(0));
    assert_eq!(e.get_stylesheet(), None);
    assert_eq!(e.pending_loads, 0);
    assert!(!e.any_failed_load);
    assert!(!HTMLLinkElement::new(ElementCreator::ScriptCreated).parser_inserted());
}

#[test]
fn generation_increment_is_plus_one() {
    assert_eq!(RequestGenerationId(0).increment(), RequestGenerationId(1));
    assert_eq!(RequestGenerationId(41).increment(), RequestGenerationId(42));
}

#[test]
fn generation_counts_initiations() {
    let c = ctx();
    let mut e = stylesheet_element_in_tree();
    let a1 = e.attribute_mutated(&c, LinkAttribute::Href, Some(String::from("one.css")));
    let a2 = e.attribute_mutated(&c, LinkAttribute::Href, Some(String::from("one.css")));
    let g1 = match a1 {
        ProtocolAction::StartStylesheetLoad(r) => r.generation,
        _ => panic!("first mutation must start a load"),
    };
    let g2 = match a2 {
        ProtocolAction::StartStylesheetLoad(r) => r.generation,
        _ => panic!("second mutation must start a load"),
    };
    assert_eq!(g1, RequestGenerationId(1));
    assert_eq!(g2, RequestGenerationId(2));
    assert!(g1.0 < g2.0);
    assert_eq!(e.get_request_generation_id(), RequestGenerationId(2));
}

#[test]
fn loader_request_carries_resolved_url_and_attributes() {
    let c = ctx();
    let mut e = stylesheet_element_in_tree();
    e.media = Some(String::from("screen and (min-width: 10em)"));
    e.integrity = Some(String::from("sha384-abc"));
    e.cross_origin = Some(String::from("use-credentials"));
    let a = e.attribute_mutated(&c, LinkAttribute::Href, Some(String::from("c.css")));
    match a {
        ProtocolAction::StartStylesheetLoad(r) => {
            assert_eq!(r.url, "https://example.com/a/c.css");
            assert_eq!(r.media_query, "screen and (min-width: 10em)");
            assert_eq!(r.integrity_metadata, "sha384-abc");
            assert_eq!(
                r.cors_setting,
                Some(link_coordinator::link::CorsSettings::UseCredentials)
            );
            assert_eq!(r.generation, RequestGenerationId(1));
        },
        other => panic!("expected a loader request, got {:?}", other),
    }
}

#[test]
fn empty_href_is_a_no_op() {
    let c = ctx();
    let mut e = stylesheet_element_in_tree();
    let a = e.attribute_mutated(&c, LinkAttribute::Href, Some(String::from("")));
    assert_eq!(a, ProtocolAction::Nothing);
    assert_eq!(e.get_request_generation_id(), RequestGenerationId(0));
}

#[test]
fn unresolvable_href_is_a_no_op() {
    let c = ctx();
    let mut e = stylesheet_element_in_tree();
    let a = e.attribute_mutated(&c, LinkAttribute::Href, Some(String::from("http://[")));
    assert_eq!(a, ProtocolAction::Nothing);
    assert_eq!(e.get_request_generation_id(), RequestGenerationId(0));
}

#[test]
fn unparsable_base_url_is_a_no_op() {
    let c = DocumentContext {
        base_url: String::from("no scheme here"),
        has_browsing_context: true,
        is_top_level: true,
    };
    let mut e = HTMLLinkElement::new(ElementCreator::ScriptCreated);
    e.rel = Some(String::from("stylesheet"));
    e.href = Some(String::from("c.css"));
    let a = e.bind_to_tree(&c, true);
    assert_eq!(a, ProtocolAction::Nothing);
    assert_eq!(e.get_request_generation_id(), RequestGenerationId(0));
}

#[test]
fn without_browsing_context_no_load_starts() {
    let c = DocumentContext {
        base_url: String::from("https://example.com/"),
        has_browsing_context: false,
        is_top_level: true,
    };
    let mut e = HTMLLinkElement::new(ElementCreator::ScriptCreated);
    e.rel = Some(String::from("stylesheet"));
    e.href = Some(String::from("c.css"));
    let a = e.bind_to_tree(&c, true);
    assert_eq!(a, ProtocolAction::Nothing);
    assert_eq!(e.get_request_generation_id(), RequestGenerationId(0));
}

#[test]
fn mutation_outside_tree_or_removal_runs_no_protocol() {
    let c = ctx();
    let mut e = HTMLLinkElement::new(ElementCreator::ScriptCreated);
    e.rel = Some(String::from("stylesheet"));
    let a = e.attribute_mutated(&c, LinkAttribute::Href, Some(String::from("c.css")));
    assert_eq!(a, ProtocolAction::Nothing);
    let a = e.bind_to_tree(&c, true);
    assert!(matches!(a, ProtocolAction::StartStylesheetLoad(_)));
    let a = e.attribute_mutated(&c, LinkAttribute::Href, None);
    assert_eq!(a, ProtocolAction::Nothing);
    assert_eq!(e.href, None);
}

#[test]
fn bind_to_tree_starts_load_from_full_attribute_set() {
    let c = ctx();
    let mut e = HTMLLinkElement::new(ElementCreator::ParserCreated);
    e.rel = Some(String::from("stylesheet"));
    e.href = Some(String::from("/style/main.css"));
    let a = e.bind_to_tree(&c, true);
    match a {
        ProtocolAction::StartStylesheetLoad(r) => {
            assert_eq!(r.url, "https://example.com/style/main.css");
            assert_eq!(r.media_query, "");
            assert_eq!(r.integrity_metadata, "");
            assert_eq!(r.cors_setting, None);
            assert_eq!(r.generation, RequestGenerationId(1));
        },
        other => panic!("expected a loader request, got {:?}", other),
    }
}

#[test]
fn aggregate_outcome_fires_exactly_once_with_failure() {
    let mut e = stylesheet_element_in_tree();
    e.increment_pending_loads_count();
    e.increment_pending_loads_count();
    e.increment_pending_loads_count();
    assert_eq!(e.load_finished(true), None);
    assert_eq!(e.load_finished(false), None);
    assert_eq!(e.load_finished(true), Some(true));
    assert_eq!(e.pending_loads, 0);
    assert!(!e.any_failed_load);
}

#[test]
fn aggregate_outcome_of_all_successes_is_clean() {
    let mut e = stylesheet_element_in_tree();
    e.increment_pending_loads_count();
    e.increment_pending_loads_count();
    assert_eq!(e.load_finished(true), None);
    assert_eq!(e.load_finished(true), Some(false));
}

#[test]
fn failure_flag_resets_between_batches() {
    let mut e = stylesheet_element_in_tree();
    e.increment_pending_loads_count();
    assert_eq!(e.load_finished(false), Some(true));
    e.increment_pending_loads_count();
    assert_eq!(e.load_finished(true), Some(false));
}

#[test]
fn stale_completion_never_displaces_current_resource() {
    let c = ctx();
    let mut e = stylesheet_element_in_tree();
    let a1 = e.attribute_mutated(&c, LinkAttribute::Href, Some(String::from("one.css")));
    assert!(matches!(a1, ProtocolAction::StartStylesheetLoad(_)));
    e.increment_pending_loads_count();
    let a2 = e.attribute_mutated(&c, LinkAttribute::Href, Some(String::from("two.css")));
    assert!(matches!(a2, ProtocolAction::StartStylesheetLoad(_)));
    e.increment_pending_loads_count();

    let fresh = e.complete_sub_load(Some(StylesheetHandle(2)), RequestGenerationId(2), true);
    assert!(fresh.installed);
    assert_eq!(fresh.deregistered, None);
    assert_eq!(e.get_stylesheet(), Some(StylesheetHandle(2)));

    let stale = e.complete_sub_load(Some(StylesheetHandle(1)), RequestGenerationId(1), true);
    assert!(!stale.installed);
    assert_eq!(stale.deregistered, None);
    assert_eq!(e.get_stylesheet(), Some(StylesheetHandle(2)));
    assert_eq!(stale.aggregate_report, Some(false));
}

#[test]
fn install_replaces_and_asks_to_deregister_previous() {
    let mut e = stylesheet_element_in_tree();
    let removed = e.install_stylesheet(StylesheetHandle(1), RequestGenerationId(0));
    assert_eq!(removed, None);
    let removed = e.install_stylesheet(StylesheetHandle(2), RequestGenerationId(0));
    assert_eq!(removed, Some(StylesheetHandle(1)));
    assert_eq!(e.get_stylesheet(), Some(StylesheetHandle(2)));
}

#[test]
fn tree_removal_releases_resource_and_discards_late_completions() {
    let mut e = stylesheet_element_in_tree();
    e.increment_pending_loads_count();
    let removed = e.install_stylesheet(StylesheetHandle(1), RequestGenerationId(0));
    assert_eq!(removed, None);

    let removed = e.unbind_from_tree();
    assert_eq!(removed, Some(StylesheetHandle(1)));
    assert_eq!(e.get_stylesheet(), None);

    let late = e.complete_sub_load(Some(StylesheetHandle(9)), RequestGenerationId(0), false);
    assert!(!late.installed);
    assert_eq!(late.deregistered, None);
    assert_eq!(e.get_stylesheet(), None);
    assert_eq!(late.aggregate_report, Some(true));

    let removed_again = e.unbind_from_tree();
    assert_eq!(removed_again, None);
}

#[test]
fn icon_change_notifies_embedder_without_generation_bump() {
    let c = ctx();
    let mut e = HTMLLinkElement::new(ElementCreator::ScriptCreated);
    e.rel = Some(String::from("icon"));
    let a = e.bind_to_tree(&c, true);
    assert_eq!(a, ProtocolAction::Nothing);
    let a = e.attribute_mutated(&c, LinkAttribute::Href, Some(String::from("/favicon.ico")));
    assert_eq!(
        a,
        ProtocolAction::NotifyFavicon(String::from("https://example.com/favicon.ico"))
    );
    assert_eq!(e.get_request_generation_id(), RequestGenerationId(0));
}

#[test]
fn sizes_change_renotifies_once_per_change() {
    let c = ctx();
    let mut e = HTMLLinkElement::new(ElementCreator::ScriptCreated);
    e.rel = Some(String::from("icon"));
    e.href = Some(String::from("favicon.png"));
    let a = e.bind_to_tree(&c, true);
    assert_eq!(
        a,
        ProtocolAction::NotifyFavicon(String::from("https://example.com/a/favicon.png"))
    );
    let a = e.attribute_mutated(&c, LinkAttribute::Sizes, Some(String::from("32x32")));
    assert_eq!(
        a,
        ProtocolAction::NotifyFavicon(String::from("https://example.com/a/favicon.png"))
    );
    let a = e.attribute_mutated(&c, LinkAttribute::Sizes, Some(String::from("64x64")));
    assert_eq!(
        a,
        ProtocolAction::NotifyFavicon(String::from("https://example.com/a/favicon.png"))
    );
    assert_eq!(e.get_request_generation_id(), RequestGenerationId(0));
}

#[test]
fn icon_notification_needs_top_level_context() {
    let c = DocumentContext {
        base_url: String::from("https://example.com/"),
        has_browsing_context: true,
        is_top_level: false,
    };
    let mut e = HTMLLinkElement::new(ElementCreator::ScriptCreated);
    e.rel = Some(String::from("icon"));
    let a = e.bind_to_tree(&c, true);
    assert_eq!(a, ProtocolAction::Nothing);
    let a = e.attribute_mutated(&c, LinkAttribute::Href, Some(String::from("favicon.ico")));
    assert_eq!(a, ProtocolAction::Nothing);
}

#[test]
fn stylesheet_wins_over_icon_on_href_change() {
    let c = ctx();
    let mut e = HTMLLinkElement::new(ElementCreator::ScriptCreated);
    e.rel = Some(String::from("stylesheet icon"));
    let _ = e.bind_to_tree(&c, true);
    let a = e.attribute_mutated(&c, LinkAttribute::Href, Some(String::from("x.css")));
    assert!(matches!(a, ProtocolAction::StartStylesheetLoad(_)));
    let a = e.attribute_mutated(&c, LinkAttribute::Sizes, Some(String::from("16x16")));
    assert!(matches!(a, ProtocolAction::NotifyFavicon(_)));
}

#[test]
fn set_stylesheet_swaps_and_clears_wrapper() {
    let mut e = HTMLLinkElement::new(ElementCreator::ScriptCreated);
    assert_eq!(e.set_stylesheet(StylesheetHandle(1)), None);
    let w = e.get_cssom_stylesheet();
    assert_eq!(
        w,
        Some(CssomStylesheet { sheet: StylesheetHandle(1), origin_clean: true })
    );
    assert_eq!(e.set_stylesheet(StylesheetHandle(2)), Some(StylesheetHandle(1)));
    assert_eq!(e.cssom_stylesheet, None);
    assert_eq!(e.get_stylesheet(), Some(StylesheetHandle(2)));
}

#[test]
fn cssom_wrapper_is_cached_and_lazy() {
    let mut e = HTMLLinkElement::new(ElementCreator::ScriptCreated);
    assert_eq!(e.get_cssom_stylesheet(), None);
    let _ = e.set_stylesheet(StylesheetHandle(5));
    let first = e.get_cssom_stylesheet();
    let second = e.get_cssom_stylesheet();
    assert_eq!(first, second);
    assert_eq!(e.cssom_stylesheet, first);
}

#[test]
fn set_origin_clean_marks_the_wrapper() {
    let mut e = HTMLLinkElement::new(ElementCreator::ScriptCreated);
    e.set_origin_clean(false);
    assert_eq!(e.cssom_stylesheet, None);
    let _ = e.set_stylesheet(StylesheetHandle(3));
    e.set_origin_clean(false);
    assert_eq!(
        e.cssom_stylesheet,
        Some(CssomStylesheet { sheet: StylesheetHandle(3), origin_clean: false })
    );
}
