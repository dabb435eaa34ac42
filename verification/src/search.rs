//! Search engines, search arguments and results, and the extraction of
//! results from a fetched result page.

use vstd::prelude::*;

use crate::browser_utils::{
    attr_or_empty, attr_readable, count_items, document_has_match, has_element, scraped_attr, scraped_has,
    scraped_has_match, scraped_item_count, scraped_text, select_element_attr, select_element_text,
    element_attr_present, ElementPath, HtmlDocument,
};
use crate::text::{
    chars_of, decimal, decimal_value, find_from, law_decimal_round_trip, first_occurrence, first_occurrence_from, lemma_first_occurrence_from_bounds,
    occurs_at, substring, u64_to_decimal,
};

verus! {

/// The search engines that result pages can be read from.
#[derive(Debug, Clone, Copy, PartialEq, Eq, Structural)]
pub enum Engines {
    Google,
    GoogleAlt,
}

/// Which page of results to ask for, and how many results to keep.
#[derive(Debug, Clone, Copy, PartialEq, Eq, Structural)]
pub struct SearchArguments {
    pub page: u32,
    pub max_results: u32,
}

/// A query for one engine, with optional arguments.
#[derive(Debug, PartialEq, Eq)]
pub struct SearchTask {
    pub engine: Engines,
    pub query: String,
    pub args: Option<SearchArguments>,
}

/// One search result, as read from a result page.
#[derive(Debug, PartialEq, Eq)]
pub struct SearchResult {
    pub title: String,
    pub link: String,
    pub cite: String,
    pub image: String,
    pub description: String,
    pub updated: String,
    pub page: u32,
}

/// The abstract content of a `SearchResult`.
pub struct SearchResultView {
    pub title: Seq<char>,
    pub link: Seq<char>,
    pub cite: Seq<char>,
    pub image: Seq<char>,
    pub description: Seq<char>,
    pub updated: Seq<char>,
    pub page: u32,
}

impl View for SearchResult {
    type V = SearchResultView;

    open spec fn view(&self) -> SearchResultView {
        SearchResultView {
            title: self.title@,
            link: self.link@,
            cite: self.cite@,
            image: self.image@,
            description: self.description@,
            updated: self.updated@,
            page: self.page,
        }
    }
}

impl Clone for SearchResult {
    fn clone(&self) -> (r: Self)
        ensures
            r == *self,
    {
        SearchResult {
            title: self.title.clone(),
            link: self.link.clone(),
            cite: self.cite.clone(),
            image: self.image.clone(),
            description: self.description.clone(),
            updated: self.updated.clone(),
            page: self.page,
        }
    }
}

/// The views of a sequence of results.
pub open spec fn results_view(v: Seq<SearchResult>) -> Seq<SearchResultView> {
    v.map_values(|r: SearchResult| r@)
}

impl Engines {
    /// The template name under which an engine is known.
    pub fn url_template(&self) -> (r: String)
        ensures
            r@ == (match self {
                Engines::Google => "Google"@,
                Engines::GoogleAlt => "GoogleStealth"@,
            }),
    {
        match self {
            Engines::Google => String::from_str("Google"),
            Engines::GoogleAlt => String::from_str("GoogleStealth"),
        }
    }
}

impl SearchArguments {
    /// The arguments for page `page` with at most `max_results` results.
    pub open spec fn new_spec(page: u32, max_results: u32) -> Self {
        SearchArguments { page, max_results }
    }

    pub fn new(page: u32, max_results: u32) -> (r: Self)
        ensures
            r.page == page,
            r.max_results == max_results,
    {
        SearchArguments { page, max_results }
    }

    /// The first page, with at most ten results.
    pub fn default() -> (r: Self)
        ensures
            r.page == 1,
            r.max_results == 10,
    {
        Self::new(1, 10)
    }
}

impl Default for SearchArguments {
    fn default() -> (r: Self)
        ensures
            r.page == 1,
            r.max_results == 10,
    {
        Self::new(1, 10)
    }
}

/// The page number that results are labelled with: pages below one count
/// as the first page.
pub open spec fn effective_page(page: u32) -> u32 {
    if page <= 1 {
        1
    } else {
        page
    }
}

/// The address of the result page for `query`, page `page`, of `engine`.
pub open spec fn query_link_spec(engine: Engines, query: Seq<char>, page: u32) -> Seq<char> {
    let base = match engine {
        Engines::Google => "https://www.google.com/search?udm=14&dpr=1&q="@,
        Engines::GoogleAlt => "https://www.google.com/search?dpr=1&udm=14&q="@,
    };
    let start = if page <= 1 {
        Seq::<char>::empty()
    } else {
        "&start="@ + decimal(((page - 1) * 10) as nat)
    };
    base + query + start
}

/// Pages whose offset `(page - 1) * 10` fits in a `u32`.
pub open spec fn page_in_range(page: u32) -> bool {
    page <= 1 || (page - 1) * 10 <= u32::MAX
}

impl Engines {
    /// The address of the result page for `query`, page `page`.
    pub fn query_link(&self, query: &str, page: u32) -> (r: String)
        requires
            page_in_range(page),
        ensures
            r@ == query_link_spec(*self, query@, page),
    {
        let mut link = match self {
            Engines::Google => String::from_str("https://www.google.com/search?udm=14&dpr=1&q="),
            Engines::GoogleAlt => String::from_str("https://www.google.com/search?dpr=1&udm=14&q="),
        };
        link.append(query);
        if page > 1 {
            let offset = u64_to_decimal(((page - 1) * 10) as u64);
            link.append("&start=");
            link.append(offset.as_str());
        }
        link
    }
}

/// The text between the first `q=` of `s` and the first `&` after it.
pub open spec fn extracted_url(s: Seq<char>) -> Option<Seq<char>> {
    match first_occurrence(s, seq!['q', '=']) {
        None => None,
        Some(q) => match first_occurrence_from(s, seq!['&'], q + 2) {
            None => None,
            Some(e) => Some(s.subrange(q + 2, e)),
        },
    }
}

/// The target address in a result link of the form `...q=<url>&...`.
pub fn google_alt_extract_url(input: String) -> (r: Option<String>)
    ensures
        match r {
            Some(u) => extracted_url(input@) == Some(u@),
            None => extracted_url(input@) is None,
        },
{
    let s = chars_of(input.as_str());
    let q_eq = vec!['q', '='];
    let amp = vec!['&'];
    assert(q_eq@ =~= seq!['q', '=']);
    assert(amp@ =~= seq!['&']);
    let q_start = match find_from(&s, &q_eq, 0) {
        Some(q) => q,
        None => return None,
    };
    proof {
        lemma_first_occurrence_from_bounds(s@, q_eq@, 0);
        assert(q_start + 2 <= s.len());
    }
    let start_index = q_start + 2;
    let end_index = match find_from(&s, &amp, start_index) {
        Some(e) => e,
        None => return None,
    };
    proof {
        lemma_first_occurrence_from_bounds(s@, amp@, start_index as int);
    }
    Some(substring(input.as_str(), start_index, end_index))
}



/// Whether the page is a captcha challenge: it holds a `div#recaptcha`.
pub fn is_captcha(fragment: &HtmlDocument) -> (r: bool)
    ensures
        r == scraped_has_match(fragment@, "div#recaptcha"@),
{
    document_has_match(fragment, "div#recaptcha")
}

/// The single result reported when the engine answers with a captcha.
pub open spec fn captcha_result(link: Seq<char>, page: u32) -> SearchResultView {
    SearchResultView {
        title: "Captcha"@,
        link: link,
        cite: Seq::empty(),
        image: Seq::empty(),
        description: "Cannot access due to captcha"@,
        updated: Seq::empty(),
        page: page,
    }
}

fn make_captcha_result(link: String, page: u32) -> (r: SearchResult)
    ensures
        r@ == captcha_result(link@, page),
{
    SearchResult {
        title: String::from_str("Captcha"),
        link,
        cite: String::new(),
        image: String::new(),
        description: String::from_str("Cannot access due to captcha"),
        updated: String::new(),
        page,
    }
}

/// The number of result blocks read: those present, but at most `max`.
pub open spec fn results_read(count: nat, max: u32) -> nat {
    if count < max {
        count
    } else {
        max as nat
    }
}

// ---------------------------------------------------------------- Google

/// The path of the `k`-th result block on a Google result page.
pub open spec fn google_path(k: nat) -> (Seq<char>, Seq<char>, nat) {
    ("div#rso"@, "div.MjjYud"@, k)
}

/// The result read from the `k`-th result block of a Google page.
pub open spec fn google_item(html: Seq<char>, k: nat, page: u32) -> SearchResultView {
    let p = google_path(k);
    let has_updated = scraped_has(html, p.0, p.1, p.2, "span.YrbPuc"@);
    SearchResultView {
        title: scraped_text(html, p.0, p.1, p.2, "h3"@),
        link: attr_or_empty(html, p, "a"@, "href"@),
        cite: scraped_text(html, p.0, p.1, p.2, "cite"@),
        image: attr_or_empty(html, p, "img.XNo5Ab"@, "src"@),
        description: if has_updated {
            scraped_text(html, p.0, p.1, p.2, "span.YrbPuc + span"@)
        } else if scraped_has(html, p.0, p.1, p.2, "div.VwiC3b > span"@) {
            scraped_text(html, p.0, p.1, p.2, "div.VwiC3b > span"@)
        } else {
            scraped_text(html, p.0, p.1, p.2, "div.VwiC3b"@)
        },
        updated: if has_updated {
            scraped_text(html, p.0, p.1, p.2, "span.YrbPuc"@)
        } else {
            Seq::empty()
        },
        page: page,
    }
}

/// A Google page can be read without failing: it is a captcha page, or it
/// has the results container and every result block that is read has the
/// link and image addresses that it shows.
pub open spec fn google_page_readable(html: Seq<char>, max: u32) -> bool {
    scraped_has_match(html, "div#recaptcha"@) || {
        &&& scraped_item_count(html, "div#rso"@, "div.MjjYud"@) is Some
        &&& forall|k: nat|
            k < results_read(scraped_item_count(html, "div#rso"@, "div.MjjYud"@)->0, max)
                ==> #[trigger] google_block_readable(html, k)
    }
}

/// The `k`-th block of a Google page has the link and image addresses that
/// it shows.
pub open spec fn google_block_readable(html: Seq<char>, k: nat) -> bool {
    &&& attr_readable(html, google_path(k), "a"@, "href"@)
    &&& attr_readable(html, google_path(k), "img.XNo5Ab"@, "src"@)
}

/// The results that a Google page yields for `query` with `args`.
pub open spec fn google_results(html: Seq<char>, query: Seq<char>, args: SearchArguments) -> Seq<SearchResultView> {
    let page = effective_page(args.page);
    if scraped_has_match(html, "div#recaptcha"@) {
        seq![captcha_result(query_link_spec(Engines::Google, query, args.page), page)]
    } else {
        Seq::new(
            results_read(scraped_item_count(html, "div#rso"@, "div.MjjYud"@)->0, args.max_results),
            |k: int| google_item(html, k as nat, page),
        )
    }
}

fn google_read_item(doc: &HtmlDocument, k: usize, page: u32) -> (r: SearchResult)
    requires
        attr_readable(doc@, google_path(k as nat), "a"@, "href"@),
        attr_readable(doc@, google_path(k as nat), "img.XNo5Ab"@, "src"@),
    ensures
        r@ == google_item(doc@, k as nat, page),
{
    let element = ElementPath {
        container: String::from_str("div#rso"),
        item: String::from_str("div.MjjYud"),
        index: k,
    };
    let title = select_element_text(doc, &element, "h3");
    let link = select_element_attr(doc, &element, "a", "href");
    let cite = select_element_text(doc, &element, "cite");
    let image = select_element_attr(doc, &element, "img.XNo5Ab", "src");
    let has_updated = has_element(doc, &element, "span.YrbPuc");
    let description = if has_updated {
        select_element_text(doc, &element, "span.YrbPuc + span")
    } else if has_element(doc, &element, "div.VwiC3b > span") {
        select_element_text(doc, &element, "div.VwiC3b > span")
    } else {
        select_element_text(doc, &element, "div.VwiC3b")
    };
    let updated = if has_updated {
        select_element_text(doc, &element, "span.YrbPuc")
    } else {
        String::new()
    };
    SearchResult { title, link, cite, image, description, updated, page }
}

/// Reads the results of a fetched Google result page for `query`: a single
/// captcha result when the page is a captcha, else the first
/// `args.max_results` result blocks, in page order.
pub fn search_google(doc: &HtmlDocument, query: &str, args: SearchArguments) -> (r: Vec<SearchResult>)
    requires
        page_in_range(args.page),
        google_page_readable(doc@, args.max_results),
    ensures
        results_view(r@) == google_results(doc@, query@, args),
{
    let page_num = if args.page <= 1 {
        1
    } else {
        args.page
    };
    if is_captcha(doc) {
        let link = Engines::Google.query_link(query, args.page);
        let r = vec![make_captcha_result(link, page_num)];
        assert(results_view(r@) =~= google_results(doc@, query@, args));
        return r;
    }
    let count = match count_items(doc, "div#rso", "div.MjjYud") {
        Some(n) => n,
        None => {
            proof {
                assert(false);
            }
            0
        }
    };
    let n = if count < args.max_results as usize {
        count
    } else {
        args.max_results as usize
    };
    let mut out: Vec<SearchResult> = Vec::new();
    let mut k: usize = 0;
    while k < n
        invariant
            k <= n,
            n == results_read(scraped_item_count(doc@, "div#rso"@, "div.MjjYud"@)->0, args.max_results),
            google_page_readable(doc@, args.max_results),
            !scraped_has_match(doc@, "div#recaptcha"@),
            page_num == effective_page(args.page),
            out@.len() == k,
            forall|j: int| 0 <= j < k ==> (#[trigger] out@[j])@ == google_item(doc@, j as nat, page_num),
        decreases n - k,
    {
        assert(google_block_readable(doc@, k as nat));
        let item = google_read_item(doc, k, page_num);
        out.push(item);
        k = k + 1;
    }
    assert(results_view(out@) =~= google_results(doc@, query@, args));
    out
}


// ------------------------------------------------------ Google (stealth)

/// The path of the `k`-th result block on a stealth Google result page.
pub open spec fn google_alt_path(k: nat) -> (Seq<char>, Seq<char>, nat) {
    ("body"@, "div.ezO2md"@, k)
}

/// The link of a stealth result: the address inside its `a.fuLhoc` link, or
/// the empty text when none can be extracted.
pub open spec fn google_alt_link(html: Seq<char>, k: nat) -> Seq<char> {
    match extracted_url(attr_or_empty(html, google_alt_path(k), "a.fuLhoc"@, "href"@)) {
        Some(u) => u,
        None => Seq::empty(),
    }
}

/// The result read from the `k`-th result block of a stealth Google page.
pub open spec fn google_alt_item(html: Seq<char>, k: nat, page: u32) -> SearchResultView {
    let p = google_alt_path(k);
    SearchResultView {
        title: scraped_text(html, p.0, p.1, p.2, "span.CVA68e"@),
        link: google_alt_link(html, k),
        cite: scraped_text(html, p.0, p.1, p.2, "span.qXLe6d.dXDvrc > span.fYyStc"@),
        image: Seq::empty(),
        description: scraped_text(html, p.0, p.1, p.2, "span.qXLe6d.FrIlee > span.fYyStc"@),
        updated: Seq::empty(),
        page: page,
    }
}

/// A stealth Google page can be read without failing: it is a captcha page,
/// or it has a body and every result block that is read has the address of
/// the link that it shows.
pub open spec fn google_alt_page_readable(html: Seq<char>, max: u32) -> bool {
    scraped_has_match(html, "div#recaptcha"@) || {
        &&& scraped_item_count(html, "body"@, "div.ezO2md"@) is Some
        &&& forall|k: nat|
            k < results_read(scraped_item_count(html, "body"@, "div.ezO2md"@)->0, max)
                ==> #[trigger] attr_readable(html, google_alt_path(k), "a.fuLhoc"@, "href"@)
    }
}

/// The results that a stealth Google page yields for `query` with `args`.
pub open spec fn google_alt_results(html: Seq<char>, query: Seq<char>, args: SearchArguments) -> Seq<SearchResultView> {
    let page = effective_page(args.page);
    if scraped_has_match(html, "div#recaptcha"@) {
        seq![captcha_result(query_link_spec(Engines::GoogleAlt, query, args.page), page)]
    } else {
        Seq::new(
            results_read(scraped_item_count(html, "body"@, "div.ezO2md"@)->0, args.max_results),
            |k: int| google_alt_item(html, k as nat, page),
        )
    }
}

fn google_alt_read_item(doc: &HtmlDocument, k: usize, page: u32) -> (r: SearchResult)
    requires
        attr_readable(doc@, google_alt_path(k as nat), "a.fuLhoc"@, "href"@),
    ensures
        r@ == google_alt_item(doc@, k as nat, page),
{
    let element = ElementPath {
        container: String::from_str("body"),
        item: String::from_str("div.ezO2md"),
        index: k,
    };
    let title = select_element_text(doc, &element, "span.CVA68e");
    let link = match google_alt_extract_url(select_element_attr(doc, &element, "a.fuLhoc", "href")) {
        Some(url) => url,
        None => String::new(),
    };
    let cite = select_element_text(doc, &element, "span.qXLe6d.dXDvrc > span.fYyStc");
    let description = select_element_text(doc, &element, "span.qXLe6d.FrIlee > span.fYyStc");
    SearchResult {
        title,
        link,
        cite,
        image: String::new(),
        description,
        updated: String::new(),
        page,
    }
}

/// Reads the results of a fetched stealth Google result page for `query`:
/// a single captcha result when the page is a captcha, else the first
/// `args.max_results` result blocks, in page order.
pub fn search_google_alt(doc: &HtmlDocument, query: &str, args: SearchArguments) -> (r: Vec<SearchResult>)
    requires
        page_in_range(args.page),
        google_alt_page_readable(doc@, args.max_results),
    ensures
        results_view(r@) == google_alt_results(doc@, query@, args),
{
    let page_num = if args.page <= 1 {
        1
    } else {
        args.page
    };
    if is_captcha(doc) {
        let link = Engines::GoogleAlt.query_link(query, args.page);
        let r = vec![make_captcha_result(link, page_num)];
        assert(results_view(r@) =~= google_alt_results(doc@, query@, args));
        return r;
    }
    let count = match count_items(doc, "body", "div.ezO2md") {
        Some(n) => n,
        None => {
            proof {
                assert(false);
            }
            0
        }
    };
    let n = if count < args.max_results as usize {
        count
    } else {
        args.max_results as usize
    };
    let mut out: Vec<SearchResult> = Vec::new();
    let mut k: usize = 0;
    while k < n
        invariant
            k <= n,
            n == results_read(scraped_item_count(doc@, "body"@, "div.ezO2md"@)->0, args.max_results),
            google_alt_page_readable(doc@, args.max_results),
            !scraped_has_match(doc@, "div#recaptcha"@),
            page_num == effective_page(args.page),
            out@.len() == k,
            forall|j: int| 0 <= j < k ==> (#[trigger] out@[j])@ == google_alt_item(doc@, j as nat, page_num),
        decreases n - k,
    {
        assert(attr_readable(doc@, google_alt_path(k as nat), "a.fuLhoc"@, "href"@));
        let item = google_alt_read_item(doc, k, page_num);
        out.push(item);
        k = k + 1;
    }
    assert(results_view(out@) =~= google_alt_results(doc@, query@, args));
    out
}


// ------------------------------------------------------------ dispatch

/// The arguments a search runs with: those given, else the defaults.
pub open spec fn effective_arguments(args: Option<SearchArguments>) -> SearchArguments {
    match args {
        Some(a) => a,
        None => SearchArguments { page: 1, max_results: 10 },
    }
}

/// A result page of `engine` can be read without failing.
pub open spec fn page_readable(engine: Engines, html: Seq<char>, max: u32) -> bool {
    match engine {
        Engines::Google => google_page_readable(html, max),
        Engines::GoogleAlt => google_alt_page_readable(html, max),
    }
}

/// The results that a result page of `engine` yields.
pub open spec fn engine_results(engine: Engines, html: Seq<char>, query: Seq<char>, args: SearchArguments) -> Seq<SearchResultView> {
    match engine {
        Engines::Google => google_results(html, query, args),
        Engines::GoogleAlt => google_alt_results(html, query, args),
    }
}

impl Engines {
    /// The browser identity that must be set before fetching a result page,
    /// if any: the stealth engine poses as an old Chrome.
    pub fn user_agent(&self) -> (r: Option<String>)
        ensures
            match self {
                Engines::Google => r is None,
                Engines::GoogleAlt => r matches Some(u) && u@ == "Mozilla/5.0 (X11; Linux x86_64) AppleWebKit/535.1 (KHTML, like Gecko) Chrome/13.0.782.41 Safari/535.1"@,
            },
    {
        match self {
            Engines::Google => None,
            Engines::GoogleAlt => Some(String::from_str(
                "Mozilla/5.0 (X11; Linux x86_64) AppleWebKit/535.1 (KHTML, like Gecko) Chrome/13.0.782.41 Safari/535.1",
            )),
        }
    }

    /// The arguments a search runs with (`args`, or the defaults).
    pub fn effective_arguments(args: Option<SearchArguments>) -> (r: SearchArguments)
        ensures
            r == effective_arguments(args),
    {
        match args {
            Some(a) => a,
            None => SearchArguments::new(1, 10),
        }
    }

    /// The results of a search once its result page was fetched.
    /// `fetched` is the page, or `None` when fetching failed, which yields no
    /// results. The answer is `None` exactly where reading the page would
    /// fail: the page offset does not fit, or the page lacks what is read.
    pub fn search(&self, fetched: Option<&HtmlDocument>, query: String, args: Option<SearchArguments>) -> (r: Option<Vec<SearchResult>>)
        ensures
            fetched is None ==> (r matches Some(v) && v@.len() == 0),
            fetched matches Some(doc) ==> {
                &&& (r is Some <==> page_in_range(effective_arguments(args).page)
                    && page_readable(*self, doc@, effective_arguments(args).max_results))
                &&& (r matches Some(v) ==> results_view(v@) == engine_results(*self, doc@, query@, effective_arguments(args)))
            },
    {
        let doc = match fetched {
            Some(d) => d,
            None => return Some(Vec::new()),
        };
        let a = Self::effective_arguments(args);
        if !(a.page <= 1 || a.page - 1 <= 429496729) {
            return None;
        }
        match self {
            Engines::Google => {
                if !google_readable(doc, a.max_results) {
                    return None;
                }
                Some(search_google(doc, query.as_str(), a))
            },
            Engines::GoogleAlt => {
                if !google_alt_readable(doc, a.max_results) {
                    return None;
                }
                Some(search_google_alt(doc, query.as_str(), a))
            },
        }
    }
}

/// Whether reading attribute `attr` of the first `selector` match below
/// `element` would succeed.
fn attr_is_readable(doc: &HtmlDocument, element: &ElementPath, selector: &str, attr: &str) -> (r: bool)
    ensures
        r == attr_readable(doc@, element.path(), selector@, attr@),
{
    !has_element(doc, element, selector) || element_attr_present(doc, element, selector, attr)
}

/// Whether a Google page can be read without failing.
fn google_readable(doc: &HtmlDocument, max: u32) -> (r: bool)
    ensures
        r == google_page_readable(doc@, max),
{
    if is_captcha(doc) {
        return true;
    }
    let count = match count_items(doc, "div#rso", "div.MjjYud") {
        Some(n) => n,
        None => return false,
    };
    let n = if count < max as usize {
        count
    } else {
        max as usize
    };
    let mut k: usize = 0;
    while k < n
        invariant
            k <= n,
            !scraped_has_match(doc@, "div#recaptcha"@),
            scraped_item_count(doc@, "div#rso"@, "div.MjjYud"@) == Some(count as nat),
            n == results_read(count as nat, max),
            forall|j: nat| j < k ==> #[trigger] google_block_readable(doc@, j),
        decreases n - k,
    {
        let element = ElementPath {
            container: String::from_str("div#rso"),
            item: String::from_str("div.MjjYud"),
            index: k,
        };
        assert(element.path() == google_path(k as nat));
        let link_ok = attr_is_readable(doc, &element, "a", "href");
        let image_ok = attr_is_readable(doc, &element, "img.XNo5Ab", "src");
        if !link_ok || !image_ok {
            assert(!google_block_readable(doc@, k as nat));
            return false;
        }
        assert(google_block_readable(doc@, k as nat));
        k = k + 1;
    }
    true
}

/// Whether a stealth Google page can be read without failing.
fn google_alt_readable(doc: &HtmlDocument, max: u32) -> (r: bool)
    ensures
        r == google_alt_page_readable(doc@, max),
{
    if is_captcha(doc) {
        return true;
    }
    let count = match count_items(doc, "body", "div.ezO2md") {
        Some(n) => n,
        None => return false,
    };
    let n = if count < max as usize {
        count
    } else {
        max as usize
    };
    let mut k: usize = 0;
    while k < n
        invariant
            k <= n,
            !scraped_has_match(doc@, "div#recaptcha"@),
            scraped_item_count(doc@, "body"@, "div.ezO2md"@) == Some(count as nat),
            n == results_read(count as nat, max),
            forall|j: nat| j < k ==> #[trigger] attr_readable(doc@, google_alt_path(j), "a.fuLhoc"@, "href"@),
        decreases n - k,
    {
        let element = ElementPath {
            container: String::from_str("body"),
            item: String::from_str("div.ezO2md"),
            index: k,
        };
        assert(element.path() == google_alt_path(k as nat));
        if !attr_is_readable(doc, &element, "a.fuLhoc", "href") {
            assert(!google_alt_page_readable(doc@, max)) by {
                assert(!attr_readable(doc@, google_alt_path(k as nat), "a.fuLhoc"@, "href"@));
            }
            return false;
        }
        k = k + 1;
    }
    true
}


// ---------------------------------------------------------------- laws

/// An extracted address holds no `&`, and the input holds it between a
/// `q=` and a `&`.
pub proof fn law_extracted_url_shape(s: Seq<char>)
    ensures
        match extracted_url(s) {
            Some(u) => (forall|i: int| 0 <= i < u.len() ==> u[i] != '&') && (exists|q: int|
                occurs_at(s, seq!['q', '='] + u + seq!['&'], q)),
            None => true,
        },
{
    lemma_first_occurrence_from_bounds(s, seq!['q', '='], 0);
    if let Some(q) = first_occurrence(s, seq!['q', '=']) {
        lemma_first_occurrence_from_bounds(s, seq!['&'], q + 2);
        if let Some(e) = first_occurrence_from(s, seq!['&'], q + 2) {
            let u = s.subrange(q + 2, e);
            assert forall|i: int| 0 <= i < u.len() implies u[i] != '&' by {
                assert(!occurs_at(s, seq!['&'], q + 2 + i));
                assert(s.subrange(q + 2 + i, q + 2 + i + 1) =~= seq![s[q + 2 + i]]);
            }
            let w = seq!['q', '='] + u + seq!['&'];
            assert(s.subrange(q, q + 2) =~= seq!['q', '=']);
            assert(s.subrange(e, e + 1) =~= seq!['&']);
            assert(s.subrange(q, q + w.len()) =~= w);
            assert(occurs_at(s, w, q));
            assert(extracted_url(s) == Some(u));
            let v = extracted_url(s)->0;
            assert(v == u);
            assert(occurs_at(s, seq!['q', '='] + v + seq!['&'], q));
        } else {
            assert(extracted_url(s) is None);
        }
    } else {
        assert(extracted_url(s) is None);
    }
}

/// The address of a result page is the engine's search address, then the
/// query as given, then, past the first page only, `&start=` and the
/// decimal offset of the page's first result, ten results to a page.
pub proof fn law_query_link(engine: Engines, query: Seq<char>, page: u32)
    ensures
        ({
            let base = match engine {
                Engines::Google => "https://www.google.com/search?udm=14&dpr=1&q="@,
                Engines::GoogleAlt => "https://www.google.com/search?dpr=1&udm=14&q="@,
            };
            let link = query_link_spec(engine, query, page);
            let rest = link.skip((base.len() + query.len()) as int);
            &&& link.take(base.len() as int) == base
            &&& link.subrange(base.len() as int, (base.len() + query.len()) as int) == query
            &&& (page <= 1 ==> rest.len() == 0)
            &&& (page > 1 ==> {
                &&& rest.take(7) == seq!['&', 's', 't', 'a', 'r', 't', '=']
                &&& decimal_value(rest.skip(7)) == (page - 1) * 10
            })
        }),
{
    reveal_strlit("&start=");
    let base = match engine {
        Engines::Google => "https://www.google.com/search?udm=14&dpr=1&q="@,
        Engines::GoogleAlt => "https://www.google.com/search?dpr=1&udm=14&q="@,
    };
    let link = query_link_spec(engine, query, page);
    let rest = link.skip((base.len() + query.len()) as int);
    assert(link.take(base.len() as int) =~= base);
    assert(link.subrange(base.len() as int, (base.len() + query.len()) as int) =~= query);
    if page > 1 {
        let d = decimal(((page - 1) * 10) as nat);
        assert(rest =~= "&start="@ + d);
        assert(rest.take(7) =~= seq!['&', 's', 't', 'a', 'r', 't', '=']);
        assert(rest.skip(7) =~= d);
        law_decimal_round_trip(((page - 1) * 10) as nat);
    } else {
        assert(rest.len() == 0);
    }
}

/// `q` is where the first `q=` of `s` starts.
pub open spec fn first_q_at(s: Seq<char>, q: int) -> bool {
    &&& occurs_at(s, seq!['q', '='], q)
    &&& forall|j: int| 0 <= j < q ==> !occurs_at(s, seq!['q', '='], j)
}

/// An address is extracted exactly when the input has a `q=` and a `&`
/// somewhere after its first `q=`; the address is then everything between
/// that first `q=` and the first `&` after it.
pub proof fn law_extracted_url_exact(s: Seq<char>)
    ensures
        match extracted_url(s) {
            Some(u) => exists|q: int| #[trigger] first_q_at(s, q) && {
                &&& q + 2 + u.len() < s.len()
                &&& s.subrange(q + 2, q + 2 + u.len()) == u
                &&& s[q + 2 + u.len()] == '&'
                &&& forall|i: int| 0 <= i < u.len() ==> u[i] != '&'
            },
            None => (forall|j: int| !occurs_at(s, seq!['q', '='], j)) || exists|q: int| #[trigger] first_q_at(s, q)
                && forall|i: int| q + 2 <= i < s.len() ==> s[i] != '&',
        },
{
    lemma_first_occurrence_from_bounds(s, seq!['q', '='], 0);
    if let Some(q) = first_occurrence(s, seq!['q', '=']) {
        assert(first_q_at(s, q));
        lemma_first_occurrence_from_bounds(s, seq!['&'], q + 2);
        if let Some(e) = first_occurrence_from(s, seq!['&'], q + 2) {
            let u = s.subrange(q + 2, e);
            assert forall|i: int| 0 <= i < u.len() implies u[i] != '&' by {
                assert(!occurs_at(s, seq!['&'], q + 2 + i));
                assert(s.subrange(q + 2 + i, q + 2 + i + 1) =~= seq![s[q + 2 + i]]);
            }
            assert(s.subrange(e, e + 1) =~= seq!['&']);
            assert(s[e] == s.subrange(e, e + 1)[0]);
            let v = extracted_url(s)->0;
            assert(v == u);
            assert(q + 2 + v.len() == e);
        } else {
            assert forall|i: int| q + 2 <= i < s.len() implies s[i] != '&' by {
                assert(!occurs_at(s, seq!['&'], i));
                assert(s.subrange(i, i + 1) =~= seq![s[i]]);
            }
            assert(extracted_url(s) is None);
        }
    } else {
        assert(extracted_url(s) is None);
    }
}

/// Every result read from a page carries the page number the search asked
/// for, counted from one; a captcha page yields exactly one result, and any
/// other page at most `max_results`.
pub proof fn law_results_shape(engine: Engines, html: Seq<char>, query: Seq<char>, args: SearchArguments)
    ensures
        ({
            let r = engine_results(engine, html, query, args);
            &&& forall|i: int| 0 <= i < r.len() ==> #[trigger] r[i].page == effective_page(args.page)
            &&& effective_page(args.page) >= 1
            &&& scraped_has_match(html, "div#recaptcha"@) ==> r.len() == 1
            &&& !scraped_has_match(html, "div#recaptcha"@) ==> r.len() <= args.max_results
        }),
{
}

/// Every result read from a (non-captcha) Google page is taken from the
/// block at its own position in the results container, field by field:
/// the title is the text of the block's first `h3` and nothing else; the
/// cite is the text of its first `cite`; the link and the image are the
/// `href` of its first `a` and the `src` of its first `img.XNo5Ab` (empty
/// when absent); a dated block (one holding a `span.YrbPuc`) takes the date
/// from that span and the description from the span right after it,
/// whatever `div.VwiC3b` holds; an undated block has no date and takes the
/// description from the first span directly inside `div.VwiC3b`, else from
/// `div.VwiC3b` itself. There are as many results as blocks, but at most
/// `max_results`.
pub proof fn law_google_result_fields(html: Seq<char>, query: Seq<char>, args: SearchArguments, k: int)
    requires
        google_page_readable(html, args.max_results),
        !scraped_has_match(html, "div#recaptcha"@),
    ensures
        ({
            let rs = google_results(html, query, args);
            let count = scraped_item_count(html, "div#rso"@, "div.MjjYud"@)->0;
            &&& rs.len() <= count
            &&& rs.len() <= args.max_results
            &&& (rs.len() == count || rs.len() == args.max_results)
        }),
        0 <= k < google_results(html, query, args).len() ==> ({
            let r = google_results(html, query, args)[k];
            let c = "div#rso"@;
            let i = "div.MjjYud"@;
            let n = k as nat;
            &&& r.title == scraped_text(html, c, i, n, "h3"@)
            &&& r.cite == scraped_text(html, c, i, n, "cite"@)
            &&& (scraped_has(html, c, i, n, "a"@) ==> scraped_attr(html, c, i, n, "a"@, "href"@) == Some(r.link))
            &&& (!scraped_has(html, c, i, n, "a"@) ==> r.link.len() == 0)
            &&& (scraped_has(html, c, i, n, "img.XNo5Ab"@)
                ==> scraped_attr(html, c, i, n, "img.XNo5Ab"@, "src"@) == Some(r.image))
            &&& (!scraped_has(html, c, i, n, "img.XNo5Ab"@) ==> r.image.len() == 0)
            &&& (scraped_has(html, c, i, n, "span.YrbPuc"@) ==> {
                &&& r.description == scraped_text(html, c, i, n, "span.YrbPuc + span"@)
                &&& r.updated == scraped_text(html, c, i, n, "span.YrbPuc"@)
            })
            &&& (!scraped_has(html, c, i, n, "span.YrbPuc"@) ==> {
                &&& r.updated.len() == 0
                &&& (scraped_has(html, c, i, n, "div.VwiC3b > span"@)
                    ==> r.description == scraped_text(html, c, i, n, "div.VwiC3b > span"@))
                &&& (!scraped_has(html, c, i, n, "div.VwiC3b > span"@)
                    ==> r.description == scraped_text(html, c, i, n, "div.VwiC3b"@))
            })
            &&& r.page == (if args.page <= 1 { 1 } else { args.page })
        }),
{
    if 0 <= k < google_results(html, query, args).len() {
        assert(google_block_readable(html, k as nat));
    }
}

/// Every result read from a (non-captcha) stealth Google page is taken
/// from the block at its own position below the body, field by field: the
/// title is the text of the block's first `span.CVA68e` and nothing else;
/// the cite and the description are the texts of the `span.fYyStc` inside
/// its `span.qXLe6d.dXDvrc` and inside its `span.qXLe6d.FrIlee`; the link is
/// the address extracted from the `href` of its first `a.fuLhoc` (empty
/// when there is none); there is no image and no date. There are as many
/// results as blocks, but at most `max_results`.
pub proof fn law_google_alt_result_fields(html: Seq<char>, query: Seq<char>, args: SearchArguments, k: int)
    requires
        google_alt_page_readable(html, args.max_results),
        !scraped_has_match(html, "div#recaptcha"@),
    ensures
        ({
            let rs = google_alt_results(html, query, args);
            let count = scraped_item_count(html, "body"@, "div.ezO2md"@)->0;
            &&& rs.len() <= count
            &&& rs.len() <= args.max_results
            &&& (rs.len() == count || rs.len() == args.max_results)
        }),
        0 <= k < google_alt_results(html, query, args).len() ==> ({
            let r = google_alt_results(html, query, args)[k];
            let c = "body"@;
            let i = "div.ezO2md"@;
            let n = k as nat;
            &&& r.title == scraped_text(html, c, i, n, "span.CVA68e"@)
            &&& r.cite == scraped_text(html, c, i, n, "span.qXLe6d.dXDvrc > span.fYyStc"@)
            &&& r.description == scraped_text(html, c, i, n, "span.qXLe6d.FrIlee > span.fYyStc"@)
            &&& r.image.len() == 0
            &&& r.updated.len() == 0
            &&& (scraped_has(html, c, i, n, "a.fuLhoc"@) ==> {
                let href = scraped_attr(html, c, i, n, "a.fuLhoc"@, "href"@);
                &&& href is Some
                &&& (extracted_url(href->0) matches Some(u) ==> r.link == u)
                &&& (extracted_url(href->0) is None ==> r.link.len() == 0)
            })
            &&& (!scraped_has(html, c, i, n, "a.fuLhoc"@) ==> r.link.len() == 0)
            &&& r.page == (if args.page <= 1 { 1 } else { args.page })
        }),
{
    if 0 <= k < google_alt_results(html, query, args).len() {
        assert(attr_readable(html, google_alt_path(k as nat), "a.fuLhoc"@, "href"@));
        if !scraped_has(html, "body"@, "div.ezO2md"@, k as nat, "a.fuLhoc"@) {
            assert(extracted_url(Seq::<char>::empty()) is None) by {
                lemma_first_occurrence_from_bounds(Seq::<char>::empty(), seq!['q', '='], 0);
            }
        }
    }
}

// ------------------------------------------------------------ printing

/// The number a result is listed under: its position counted over all
/// pages of ten.
pub open spec fn result_number(page: u32, index: int) -> int {
    (page - 1) * 10 + index + 1
}

/// The lines printed for the `index`-th result of a page.
pub open spec fn result_lines(r: SearchResultView, index: int) -> Seq<Seq<char>> {
    seq![
        "Result #"@ + decimal(result_number(r.page, index) as nat),
        "Title: "@ + r.title,
        "Link: "@ + r.link,
        "Cite: "@ + r.cite,
        "Description: "@ + r.description,
        "Updated: "@ + r.updated,
        "----------"@,
    ]
}

fn labelled(label: &str, value: &String) -> (r: String)
    ensures
        r@ == label@ + value@,
{
    let mut r = String::from_str(label);
    r.append(value.as_str());
    r
}

/// The lines printed for `res`, the `index`-th result of its page.
pub fn search_result_lines(res: &SearchResult, index: usize) -> (r: Vec<String>)
    requires
        res.page >= 1,
        result_number(res.page, index as int) <= usize::MAX,
    ensures
        r@.map_values(|s: String| s@) == result_lines(res@, index as int),
{
    let number = (res.page as usize - 1) * 10 + index + 1;
    let mut heading = String::from_str("Result #");
    let digits = u64_to_decimal(number as u64);
    heading.append(digits.as_str());
    let r = vec![
        heading,
        labelled("Title: ", &res.title),
        labelled("Link: ", &res.link),
        labelled("Cite: ", &res.cite),
        labelled("Description: ", &res.description),
        labelled("Updated: ", &res.updated),
        String::from_str("----------"),
    ];
    assert(r@.map_values(|s: String| s@) =~= result_lines(res@, index as int));
    r
}

} // verus!
