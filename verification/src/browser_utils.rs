//! Reading parsed HTML pages, and the small decisions around the browser
//! connection (endpoints, which tab to use, which evasion scripts exist).

use vstd::prelude::*;

use crate::text::{contains, decimal, has_substring, u64_to_decimal};

verus! {

#[verifier::external_type_specification]
#[verifier::external_body]
pub struct ExHtml(scraper::Html);

/// A parsed HTML document, together with the source text it was parsed from.
pub struct HtmlDocument {
    source: String,
    tree: scraper::Html,
}

impl View for HtmlDocument {
    type V = Seq<char>;

    closed spec fn view(&self) -> Seq<char> {
        self.source@
    }
}

/// Whether some element of the document parsed from `html` matches the CSS
/// selector `selector` (false when the selector does not parse).
pub uninterp spec fn scraped_has_match(html: Seq<char>, selector: Seq<char>) -> bool;

/// In the document parsed from `html`: the number of elements matching
/// `item` below the first element matching `container`; `None` when no
/// element matches `container` or a selector does not parse.
pub uninterp spec fn scraped_item_count(html: Seq<char>, container: Seq<char>, item: Seq<char>) -> Option<nat>;

/// In the document parsed from `html`, take the `index`-th element matching
/// `item` below the first element matching `container`: whether some element
/// below it matches `selector`.
pub uninterp spec fn scraped_has(
    html: Seq<char>,
    container: Seq<char>,
    item: Seq<char>,
    index: nat,
    selector: Seq<char>,
) -> bool;

/// As `scraped_has`, the concatenated text below the first element matching
/// `selector`, or the empty text when there is none.
pub uninterp spec fn scraped_text(
    html: Seq<char>,
    container: Seq<char>,
    item: Seq<char>,
    index: nat,
    selector: Seq<char>,
) -> Seq<char>;

/// As `scraped_has`, the value of attribute `attr` of the first element
/// matching `selector`, when there is such an element and it has that
/// attribute.
pub uninterp spec fn scraped_attr(
    html: Seq<char>,
    container: Seq<char>,
    item: Seq<char>,
    index: nat,
    selector: Seq<char>,
    attr: Seq<char>,
) -> Option<Seq<char>>;

/// Names one element of a document: the `index`-th element matching `item`
/// below the first element matching `container`.
pub struct ElementPath {
    pub container: String,
    pub item: String,
    pub index: usize,
}

/// Parses `source` as an HTML document (`scraper::Html::parse_document`).
/// The document keeps its source text, which is what the contracts of the
/// reading functions below speak of.
#[verifier::external_body]
pub fn parse_document(source: String) -> (doc: HtmlDocument)
    ensures
        doc@ == source@,
{
    HtmlDocument { tree: scraper::Html::parse_document(&source), source }
}

/// Whether some element of the document matches `selector`
/// (`Html::select` with a parsed `scraper::Selector`, first match).
#[verifier::external_body]
pub fn document_has_match(doc: &HtmlDocument, selector: &str) -> (r: bool)
    ensures
        r == scraped_has_match(doc@, selector@),
{
    match scraper::Selector::parse(selector) {
        Ok(sel) => doc.tree.select(&sel).next().is_some(),
        Err(_) => false,
    }
}

/// The number of `item` elements below the first `container` element
/// (`Html::select`, then `ElementRef::select`, counted).
#[verifier::external_body]
pub fn count_items(doc: &HtmlDocument, container: &str, item: &str) -> (r: Option<usize>)
    ensures
        match r {
            Some(n) => scraped_item_count(doc@, container@, item@) == Some(n as nat),
            None => scraped_item_count(doc@, container@, item@) is None,
        },
{
    match (scraper::Selector::parse(container), scraper::Selector::parse(item)) {
        (Ok(c), Ok(i)) => doc.tree.select(&c).next().map(|e| e.select(&i).count()),
        _ => None,
    }
}

/// Whether some element below `element` matches `selector`
/// (`ElementRef::select`, first match).
#[verifier::external_body]
pub fn has_element(doc: &HtmlDocument, element: &ElementPath, selector: &str) -> (r: bool)
    ensures
        r == scraped_has(doc@, element.container@, element.item@, element.index as nat, selector@),
{
    match (scraper::Selector::parse(&element.container), scraper::Selector::parse(&element.item),
        scraper::Selector::parse(selector)) {
        (Ok(c), Ok(i), Ok(s)) => doc.tree.select(&c).next()
            .and_then(|e| e.select(&i).nth(element.index))
            .and_then(|e| e.select(&s).next()).is_some(),
        _ => false,
    }
}

/// The text of the first element below `element` that matches `selector`
/// (`ElementRef::text`, joined), or the empty text.
#[verifier::external_body]
pub fn select_element_text(doc: &HtmlDocument, element: &ElementPath, selector: &str) -> (r: String)
    ensures
        r@ == scraped_text(doc@, element.container@, element.item@, element.index as nat, selector@),
{
    match (scraper::Selector::parse(&element.container), scraper::Selector::parse(&element.item),
        scraper::Selector::parse(selector)) {
        (Ok(c), Ok(i), Ok(s)) => doc.tree.select(&c).next()
            .and_then(|e| e.select(&i).nth(element.index))
            .and_then(|e| e.select(&s).next())
            .map_or(String::new(), |e| e.text().collect::<Vec<_>>().join("")),
        _ => String::new(),
    }
}

/// The attribute `attr` of the first element below `element` that matches
/// `selector` (`Element::attr`), when both exist.
#[verifier::external_body]
fn element_attr(doc: &HtmlDocument, element: &ElementPath, selector: &str, attr: &str) -> (r: Option<String>)
    ensures
        match r {
            Some(v) => scraped_attr(doc@, element.container@, element.item@, element.index as nat, selector@, attr@) == Some(v@),
            None => scraped_attr(doc@, element.container@, element.item@, element.index as nat, selector@, attr@) is None,
        },
{
    match (scraper::Selector::parse(&element.container), scraper::Selector::parse(&element.item),
        scraper::Selector::parse(selector)) {
        (Ok(c), Ok(i), Ok(s)) => doc.tree.select(&c).next()
            .and_then(|e| e.select(&i).nth(element.index))
            .and_then(|e| e.select(&s).next())
            .and_then(|e| e.value().attr(attr).map(|v| v.to_string())),
        _ => None,
    }
}

/// Whether the first element below `element` that matches `selector` has
/// attribute `attr`.
pub fn element_attr_present(doc: &HtmlDocument, element: &ElementPath, selector: &str, attr: &str) -> (r: bool)
    ensures
        r == scraped_attr(doc@, element.container@, element.item@, element.index as nat, selector@, attr@) is Some,
{
    element_attr(doc, element, selector, attr).is_some()
}

/// Reading attribute `attr` of the first `selector` match below `element`
/// succeeds: either there is no such match, or the match has the attribute.
pub open spec fn attr_readable(html: Seq<char>, path: (Seq<char>, Seq<char>, nat), selector: Seq<char>, attr: Seq<char>) -> bool {
    scraped_has(html, path.0, path.1, path.2, selector) ==> scraped_attr(html, path.0, path.1, path.2, selector, attr) is Some
}

/// The attribute `attr` of the first `selector` match below `element`, or
/// the empty text when nothing matches.
pub open spec fn attr_or_empty(html: Seq<char>, path: (Seq<char>, Seq<char>, nat), selector: Seq<char>, attr: Seq<char>) -> Seq<char> {
    if scraped_has(html, path.0, path.1, path.2, selector) {
        scraped_attr(html, path.0, path.1, path.2, selector, attr).unwrap()
    } else {
        Seq::empty()
    }
}

impl ElementPath {
    /// The abstract form of a path: container selector, item selector, index.
    pub open spec fn path(&self) -> (Seq<char>, Seq<char>, nat) {
        (self.container@, self.item@, self.index as nat)
    }
}

/// The attribute `attr` of the first element below `element` that matches
/// `selector`, or the empty text when nothing matches. A match without the
/// attribute is excluded by the precondition.
pub fn select_element_attr(doc: &HtmlDocument, element: &ElementPath, selector: &str, attr: &str) -> (r: String)
    requires
        attr_readable(doc@, element.path(), selector@, attr@),
    ensures
        r@ == attr_or_empty(doc@, element.path(), selector@, attr@),
{
    if !has_element(doc, element, selector) {
        return String::new();
    }
    match element_attr(doc, element, selector, attr) {
        Some(v) => v,
        None => {
            proof {
                assert(false);
            }
            String::new()
        }
    }
}


/// What the browser's debugging endpoint reports about itself.
#[derive(Debug, PartialEq, Eq)]
pub struct DevToolsInfo {
    pub websocket_debugger_url: String,
}

/// The debugging address of a browser on the local machine at `port`.
pub fn devtools_endpoint(port: u16) -> (r: String)
    ensures
        r@ == "http://localhost:"@ + decimal(port as nat),
{
    let mut r = String::from_str("http://localhost:");
    let p = u64_to_decimal(port as u64);
    r.append(p.as_str());
    r
}

/// The address a newly opened tab starts at.
pub fn new_tab_url() -> (r: String)
    ensures
        r@ == "chrome://version/"@,
{
    String::from_str("chrome://version/")
}

/// Which tab to work in.
#[derive(Debug, Clone, Copy, PartialEq, Eq, Structural)]
pub enum TabChoice {
    /// Reuse the open tab at this position.
    Reuse(usize),
    /// Open a new tab.
    Create,
}

/// The `n`-th open tab when there is one, else a new tab.
pub fn choose_tab(open_tabs: usize, n: u16) -> (r: TabChoice)
    ensures
        r == (if open_tabs > n as usize {
            TabChoice::Reuse(n as usize)
        } else {
            TabChoice::Create
        }),
{
    if open_tabs > n as usize {
        TabChoice::Reuse(n as usize)
    } else {
        TabChoice::Create
    }
}

/// What to do about the evasion scripts.
#[derive(Debug, Clone, Copy, PartialEq, Eq, Structural)]
pub enum StealthPlan {
    /// Inject every script of the directory.
    Inject,
    /// A path was given but it is not a directory: warn and go on.
    NotADirectory,
    /// No path was given: inject nothing.
    Skip,
}

/// Scripts are injected only from a given path that is a directory.
pub fn stealth_plan(path_given: bool, is_dir: bool) -> (r: StealthPlan)
    ensures
        r == (if !path_given {
            StealthPlan::Skip
        } else if is_dir {
            StealthPlan::Inject
        } else {
            StealthPlan::NotADirectory
        }),
{
    if !path_given {
        StealthPlan::Skip
    } else if is_dir {
        StealthPlan::Inject
    } else {
        StealthPlan::NotADirectory
    }
}

/// The evasion scripts, in the order they are injected.
pub open spec fn stealth_scripts() -> Seq<Seq<char>> {
    seq![
        "utils.js"@,
        "chrome_app.js"@,
        "chrome_runtime.js"@,
        "iframe_content_window.js"@,
        "media_codecs.js"@,
        "navigator_language.js"@,
        "navigator_permissions.js"@,
        "navigator_plugins.js"@,
        "webgl_vendor_override.js"@,
        "window_outerdimensions.js"@,
        "hairline_fix.js"@,
    ]
}

/// The file names of the evasion scripts, in injection order.
pub fn stealth_script_names() -> (r: Vec<String>)
    ensures
        r@.map_values(|s: String| s@) == stealth_scripts(),
{
    let r = vec![
        String::from_str("utils.js"),
        String::from_str("chrome_app.js"),
        String::from_str("chrome_runtime.js"),
        String::from_str("iframe_content_window.js"),
        String::from_str("media_codecs.js"),
        String::from_str("navigator_language.js"),
        String::from_str("navigator_permissions.js"),
        String::from_str("navigator_plugins.js"),
        String::from_str("webgl_vendor_override.js"),
        String::from_str("window_outerdimensions.js"),
        String::from_str("hairline_fix.js"),
    ];
    assert(r@.map_values(|s: String| s@) =~= stealth_scripts());
    r
}


/// The process names that count as a running Chromium.
pub open spec fn chromium_names() -> Seq<Seq<char>> {
    seq!["chromium"@, "chromium-browser"@]
}

/// Whether some running process, given by its name, is a Chromium: its
/// name contains one of `chromium_names()`.
pub fn check_chromium(process_names: &Vec<String>) -> (r: bool)
    ensures
        r == exists|i: int, j: int|
            0 <= i < process_names@.len() && 0 <= j < chromium_names().len()
                && #[trigger] contains(process_names@[i]@, chromium_names()[j]),
{
    let targets = ["chromium", "chromium-browser"];
    let mut j: usize = 0;
    while j < 2
        invariant
            j <= 2,
            targets@[0]@ == chromium_names()[0],
            targets@[1]@ == chromium_names()[1],
            forall|i: int, k: int| 0 <= i < process_names@.len() && 0 <= k < j
                ==> !#[trigger] contains(process_names@[i]@, chromium_names()[k]),
        decreases 2 - j,
    {
        let mut i: usize = 0;
        while i < process_names.len()
            invariant
                j < 2,
                i <= process_names@.len(),
                targets@[j as int]@ == chromium_names()[j as int],
                forall|m: int| 0 <= m < i ==> !#[trigger] contains(process_names@[m]@, chromium_names()[j as int]),
            decreases process_names@.len() - i,
        {
            if has_substring(process_names[i].as_str(), targets[j]) {
                return true;
            }
            i = i + 1;
        }
        j = j + 1;
    }
    false
}

} // verus!
