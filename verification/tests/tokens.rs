use link_coordinator::link::CorsSettings;
use link_coordinator::link::ElementCreator;
use link_coordinator::link::HTMLLinkElement;
use link_coordinator::link::ReferrerPolicy;
use link_coordinator::tokens::is_favicon;
use link_coordinator::tokens::string_is_stylesheet;

fn element_with_rel(rel: &str) -> HTMLLinkElement {
    let mut e = HTMLLinkElement::new(ElementCreator::ScriptCreated);
    e.rel = Some(String::from(rel));
    e
}

#[test]
fn stylesheet_token_is_found() {
    assert!(string_is_stylesheet(&Some(String::from("stylesheet"))));
    assert!(string_is_stylesheet(&Some(String::from("alternate stylesheet"))));
}

#[test]
fn stylesheet_token_is_case_insensitive() {
    assert!(string_is_stylesheet(&Some(String::from("STYLESHEET"))));
    assert!(string_is_stylesheet(&Some(String::from("StyleSheet"))));
}

#[test]
fn stylesheet_token_respects_boundaries() {
    assert!(!string_is_stylesheet(&Some(String::from("stylesheets"))));
    assert!(!string_is_stylesheet(&Some(String::from("mystylesheet"))));
    assert!(!string_is_stylesheet(&Some(String::from(""))));
    assert!(!string_is_stylesheet(&None));
}

#[test]
fn stylesheet_token_found_across_html_space_kinds() {
    assert!(string_is_stylesheet(&Some(String::from("icon\tstylesheet"))));
    assert!(string_is_stylesheet(&Some(String::from("icon\nstylesheet\r"))));
    assert!(string_is_stylesheet(&Some(String::from("  stylesheet  "))));
}

#[test]
fn favicon_tokens_are_recognised() {
    assert!(is_favicon(&Some(String::from("icon"))));
    assert!(is_favicon(&Some(String::from("ICON"))));
    assert!(is_favicon(&Some(String::from("apple-touch-icon"))));
    assert!(is_favicon(&Some(String::from("shortcut icon"))));
    assert!(!is_favicon(&Some(String::from("iconography"))));
    assert!(!is_favicon(&None));
}

#[test]
fn alternate_is_detected_case_insensitively() {
    assert!(element_with_rel("alternate stylesheet").is_alternate());
    assert!(element_with_rel("Alternate").is_alternate());
    assert!(!element_with_rel("stylesheet").is_alternate());
    assert!(!HTMLLinkElement::new(ElementCreator::ScriptCreated).is_alternate());
}

#[test]
fn referrer_policy_needs_exact_noreferrer_token() {
    assert_eq!(
        element_with_rel("noreferrer").referrer_policy(),
        Some(ReferrerPolicy::NoReferrer)
    );
    assert_eq!(
        element_with_rel("stylesheet noreferrer").referrer_policy(),
        Some(ReferrerPolicy::NoReferrer)
    );
    assert_eq!(element_with_rel("NoReferrer").referrer_policy(), None);
    assert_eq!(element_with_rel("stylesheet").referrer_policy(), None);
    assert_eq!(
        HTMLLinkElement::new(ElementCreator::ScriptCreated).referrer_policy(),
        None
    );
}

#[test]
fn cors_setting_follows_crossorigin_attribute() {
    let mut e = HTMLLinkElement::new(ElementCreator::ScriptCreated);
    assert_eq!(e.cors_setting(), None);
    e.cross_origin = Some(String::from("use-credentials"));
    assert_eq!(e.cors_setting(), Some(CorsSettings::UseCredentials));
    e.cross_origin = Some(String::from("USE-CREDENTIALS"));
    assert_eq!(e.cors_setting(), Some(CorsSettings::UseCredentials));
    e.cross_origin = Some(String::from("anonymous"));
    assert_eq!(e.cors_setting(), Some(CorsSettings::Anonymous));
    e.cross_origin = Some(String::from(""));
    assert_eq!(e.cors_setting(), Some(CorsSettings::Anonymous));
}
