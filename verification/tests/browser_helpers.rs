use gsearch::browser_utils::{
    check_chromium, choose_tab, new_tab_url, count_items, devtools_endpoint, document_has_match, element_attr_present, has_element,
    parse_document, select_element_attr, select_element_text, stealth_plan, stealth_script_names, ElementPath,
    StealthPlan, TabChoice,
};
use gsearch::bypass::{bypass_request, flaresolverr_endpoint};

const PAGE: &str = r#"<html><body><ul id="l"><li><b>one</b> <i>x</i></li><li><a href="/two">two</a><a>bare</a></li></ul></body></html>"#;

fn path(index: usize) -> ElementPath {
    ElementPath { container: "ul#l".into(), item: "li".into(), index }
}

#[test]
fn reading_documents() {
    let doc = parse_document(PAGE.into());
    assert!(document_has_match(&doc, "ul#l"));
    assert!(!document_has_match(&doc, "ol"));
    assert!(!document_has_match(&doc, "[[["));
    assert_eq!(count_items(&doc, "ul#l", "li"), Some(2));
    assert_eq!(count_items(&doc, "ul#l", "b"), Some(1));
    assert_eq!(count_items(&doc, "ol", "li"), None);
    assert!(has_element(&doc, &path(0), "b"));
    assert!(!has_element(&doc, &path(1), "b"));
    assert!(!has_element(&doc, &path(2), "a"));
    assert_eq!(select_element_text(&doc, &path(0), "b"), "one");
    assert_eq!(select_element_text(&doc, &path(1), "a"), "two");
    assert_eq!(select_element_text(&doc, &path(0), "a"), "");
    assert_eq!(select_element_attr(&doc, &path(1), "a", "href"), "/two");
    assert_eq!(select_element_attr(&doc, &path(0), "a", "href"), "");
    assert!(element_attr_present(&doc, &path(1), "a", "href"));
    assert!(!element_attr_present(&doc, &path(1), "a", "title"));
}

#[test]
fn endpoints() {
    assert_eq!(devtools_endpoint(8928), "http://localhost:8928");
    assert_eq!(devtools_endpoint(0), "http://localhost:0");
    assert_eq!(flaresolverr_endpoint(8191), "http://localhost:8191/");
    let r = bypass_request("https://x.org".into());
    assert_eq!(r.cmd, "requests.get");
    assert_eq!(r.url, "https://x.org");
    assert_eq!(r.max_timeout, 60000);
}

#[test]
fn tab_and_stealth_decisions() {
    assert_eq!(choose_tab(3, 1), TabChoice::Reuse(1));
    assert_eq!(choose_tab(1, 1), TabChoice::Create);
    assert_eq!(choose_tab(0, 0), TabChoice::Create);
    assert_eq!(stealth_plan(false, true), StealthPlan::Skip);
    assert_eq!(stealth_plan(true, true), StealthPlan::Inject);
    assert_eq!(stealth_plan(true, false), StealthPlan::NotADirectory);
    let names = stealth_script_names();
    assert_eq!(names.len(), 11);
    assert_eq!(names[0], "utils.js");
    assert_eq!(names[10], "hairline_fix.js");
}

#[test]
fn recognising_chromium_processes() {
    let names = |v: &[&str]| v.iter().map(|s| s.to_string()).collect::<Vec<String>>();
    assert!(check_chromium(&names(&["bash", "chromium"])));
    assert!(check_chromium(&names(&["chromium-browse"])));
    assert!(check_chromium(&names(&["/usr/lib/chromium-browser"])));
    assert!(!check_chromium(&names(&["chrome", "firefox"])));
    assert!(!check_chromium(&names(&[])));
}

#[test]
fn new_tab_address() {
    assert_eq!(new_tab_url(), "chrome://version/");
}
