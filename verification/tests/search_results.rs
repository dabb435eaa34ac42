use gsearch::browser_utils::parse_document;
use gsearch::search::{
    google_alt_extract_url, is_captcha, search_google, search_google_alt, search_result_lines, Engines,
    SearchArguments, SearchResult,
};

const GOOGLE_PAGE: &str = r#"<html><head></head><body><div id="rso">
<div class="MjjYud"><a href="https://a.example/"><h3>Title A</h3></a><cite>a.example</cite><div class="VwiC3b"><span>Desc </span><span>ignored</span></div></div>
<div class="MjjYud"><a href="https://b.example/"><h3>Title B</h3></a><cite>b.example</cite><img class="XNo5Ab" src="b.png"><div><span class="YrbPuc">3 days ago</span><span>Desc B</span></div></div>
<div class="MjjYud"><a href="https://c.example/"><h3>Title C</h3></a><div class="VwiC3b">Plain C</div></div>
</div></body></html>"#;

const ALT_PAGE: &str = r#"<html><body>
<div class="ezO2md"><a class="fuLhoc" href="/url?q=https://www.rust-lang.org/&amp;sa=U"><span class="CVA68e">Rust</span></a><span class="qXLe6d dXDvrc"><span class="fYyStc">www.rust-lang.org</span></span><span class="qXLe6d FrIlee"><span class="fYyStc">A language</span></span></div>
<div class="ezO2md"><a class="fuLhoc" href="/local"><span class="CVA68e">Local</span></a></div>
</body></html>"#;

const CAPTCHA_PAGE: &str = r#"<html><body><div id="recaptcha" class="g-recaptcha"></div></body></html>"#;

fn result(title: &str, link: &str, cite: &str, image: &str, description: &str, updated: &str, page: u32) -> SearchResult {
    SearchResult {
        title: title.into(),
        link: link.into(),
        cite: cite.into(),
        image: image.into(),
        description: description.into(),
        updated: updated.into(),
        page,
    }
}

#[test]
fn url_templates() {
    assert_eq!(Engines::Google.url_template(), "Google");
    assert_eq!(Engines::GoogleAlt.url_template(), "GoogleStealth");
}

#[test]
fn search_argument_constructors() {
    assert_eq!(SearchArguments::new(2, 5), SearchArguments { page: 2, max_results: 5 });
    assert_eq!(SearchArguments::default(), SearchArguments { page: 1, max_results: 10 });
    assert_eq!(<SearchArguments as Default>::default(), SearchArguments { page: 1, max_results: 10 });
    assert_eq!(Engines::effective_arguments(None), SearchArguments { page: 1, max_results: 10 });
    assert_eq!(Engines::effective_arguments(Some(SearchArguments::new(3, 4))), SearchArguments::new(3, 4));
}

#[test]
fn query_links() {
    assert_eq!(Engines::Google.query_link("rust", 1), "https://www.google.com/search?udm=14&dpr=1&q=rust");
    assert_eq!(Engines::Google.query_link("rust", 0), "https://www.google.com/search?udm=14&dpr=1&q=rust");
    assert_eq!(Engines::GoogleAlt.query_link("rust", 3), "https://www.google.com/search?dpr=1&udm=14&q=rust&start=20");
    assert_eq!(Engines::GoogleAlt.query_link("a b", 429496730), "https://www.google.com/search?dpr=1&udm=14&q=a b&start=4294967290");
}

#[test]
fn user_agents() {
    assert_eq!(Engines::Google.user_agent(), None);
    assert_eq!(
        Engines::GoogleAlt.user_agent().as_deref(),
        Some("Mozilla/5.0 (X11; Linux x86_64) AppleWebKit/535.1 (KHTML, like Gecko) Chrome/13.0.782.41 Safari/535.1")
    );
}

#[test]
fn extracting_redirect_targets() {
    assert_eq!(google_alt_extract_url("/url?q=https://x.org/&sa=U".into()), Some("https://x.org/".to_string()));
    assert_eq!(google_alt_extract_url("q=&".into()), Some(String::new()));
    assert_eq!(google_alt_extract_url("/url?q=https://x.org/".into()), None);
    assert_eq!(google_alt_extract_url("/local".into()), None);
    assert_eq!(google_alt_extract_url("a&b?q=c&d&e".into()), Some("c".to_string()));
    assert_eq!(google_alt_extract_url("q=é&q=x&".into()), Some("é".to_string()));
}

#[test]
fn captcha_detection() {
    assert!(is_captcha(&parse_document(CAPTCHA_PAGE.into())));
    assert!(!is_captcha(&parse_document(GOOGLE_PAGE.into())));
}

#[test]
fn google_page_results() {
    let doc = parse_document(GOOGLE_PAGE.into());
    let r = search_google(&doc, "rust", SearchArguments::new(1, 10));
    assert_eq!(
        r,
        vec![
            result("Title A", "https://a.example/", "a.example", "", "Desc ", "", 1),
            result("Title B", "https://b.example/", "b.example", "b.png", "Desc B", "3 days ago", 1),
            result("Title C", "https://c.example/", "", "", "Plain C", "", 1),
        ]
    );
    let r = search_google(&doc, "rust", SearchArguments::new(0, 2));
    assert_eq!(r.len(), 2);
    assert_eq!(r[1].title, "Title B");
    assert!(r.iter().all(|x| x.page == 1));
    let r = search_google(&doc, "rust", SearchArguments::new(4, 0));
    assert!(r.is_empty());
}

#[test]
fn google_captcha_result() {
    let doc = parse_document(CAPTCHA_PAGE.into());
    let r = search_google(&doc, "rust", SearchArguments::new(2, 10));
    assert_eq!(
        r,
        vec![result(
            "Captcha",
            "https://www.google.com/search?udm=14&dpr=1&q=rust&start=10",
            "",
            "",
            "Cannot access due to captcha",
            "",
            2
        )]
    );
    let r = search_google_alt(&doc, "go", SearchArguments::new(1, 0));
    assert_eq!(r.len(), 1);
    assert_eq!(r[0].link, "https://www.google.com/search?dpr=1&udm=14&q=go");
}

#[test]
fn stealth_page_results() {
    let doc = parse_document(ALT_PAGE.into());
    let r = search_google_alt(&doc, "rust", SearchArguments::new(5, 3));
    assert_eq!(
        r,
        vec![
            result("Rust", "https://www.rust-lang.org/", "www.rust-lang.org", "", "A language", "", 5),
            result("Local", "", "", "", "", "", 5),
        ]
    );
}

#[test]
fn dispatch_by_engine() {
    let google = parse_document(GOOGLE_PAGE.into());
    let alt = parse_document(ALT_PAGE.into());
    assert_eq!(Engines::Google.search(None, "q".into(), None), Some(vec![]));
    let r = Engines::Google.search(Some(&google), "q".into(), None).unwrap();
    assert_eq!(r.len(), 3);
    let r = Engines::GoogleAlt.search(Some(&alt), "q".into(), Some(SearchArguments::new(1, 1))).unwrap();
    assert_eq!(r.len(), 1);
    assert_eq!(r[0].link, "https://www.rust-lang.org/");
    // a Google page read with the stealth engine has no result blocks
    assert_eq!(Engines::GoogleAlt.search(Some(&google), "q".into(), None), Some(vec![]));
    // no results container: reading would fail
    assert_eq!(Engines::Google.search(Some(&alt), "q".into(), None), None);
    // an offset that does not fit
    assert_eq!(Engines::Google.search(Some(&google), "q".into(), Some(SearchArguments::new(u32::MAX, 1))), None);
}

#[test]
fn missing_link_address_is_refused() {
    let page = r#"<html><body><div id="rso"><div class="MjjYud"><a name="x"><h3>T</h3></a></div></div></body></html>"#;
    let doc = parse_document(page.into());
    assert_eq!(Engines::Google.search(Some(&doc), "q".into(), None), None);
    // not refused when that block is not read
    assert_eq!(Engines::Google.search(Some(&doc), "q".into(), Some(SearchArguments::new(1, 0))), Some(vec![]));
    let page = r#"<html><body><div class="ezO2md"><a class="fuLhoc"></a></div></body></html>"#;
    let doc = parse_document(page.into());
    assert_eq!(Engines::GoogleAlt.search(Some(&doc), "q".into(), None), None);
}

#[test]
fn printed_lines() {
    let r = result("T", "L", "C", "", "D", "U", 2);
    assert_eq!(
        search_result_lines(&r, 3),
        vec!["Result #14", "Title: T", "Link: L", "Cite: C", "Description: D", "Updated: U", "----------"]
    );
    let r = result("T", "L", "C", "", "D", "", 1);
    assert_eq!(search_result_lines(&r, 0)[0], "Result #1");
}

#[test]
fn extracted_addresses_hold_no_ampersand() {
    for input in ["/url?q=a&b", "q=&&", "x?q=https://y.org/?p=1&z", "q=q=q&"] {
        let u = google_alt_extract_url(input.to_string()).unwrap();
        assert!(!u.contains('&'));
        assert!(input.contains(&format!("q={}&", u)));
    }
}
