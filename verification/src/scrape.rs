//! The HTML scraper: link extraction with an extension deny-list, title,
//! favicon, page text and meta fields, and the SEO score.
//!
//! HTML parsing and CSS selection are done by the `scraper` crate behind
//! trusted wrappers; which elements are asked for, the deny-list, href
//! resolution, deduplication and the text pipeline are verified.
use crate::text::join_spaced;
use crate::text::lower_of;
use crate::text::lowercase;
use crate::text::spec_safe_slice;
use crate::text::trim_str;
use crate::text::trimmed;
use crate::text::words_spec;
use crate::text::extract_words;
use crate::text::join_words;
use crate::text::safe_slice;
use crate::urls::href_canon;
use crate::urls::normalize_href;
use crate::urls::spec_starts_with_http;
use vstd::assert_by_contradiction;
use vstd::prelude::*;
use vstd::string::StrSliceExecFns;
use vstd::string::StringExecFns;
use vstd::utf8::encode_utf8;

verus! {

/// The `attr` attribute of each element matching `selector` in the parsed
/// page that has that attribute, in document order.
pub uninterp spec fn sel_attr_list(page: Seq<char>, selector: Seq<char>, attr: Seq<char>) -> Seq<
    Seq<char>,
>;

/// For the first element matching `selector` in the parsed page: `None` when
/// no element matches, otherwise its `attr` attribute if it has one.
pub uninterp spec fn sel_first_attr(page: Seq<char>, selector: Seq<char>, attr: Seq<char>) -> Option<
    Option<Seq<char>>,
>;

/// The concatenated text of the first element matching `selector` in the
/// parsed page, if any element matches.
pub uninterp spec fn sel_first_text(page: Seq<char>, selector: Seq<char>) -> Option<Seq<char>>;

/// The text of the first element matching `root_selector`: the text of each
/// descendant not matching `skip_selector`, joined and trimmed.
pub uninterp spec fn page_text(
    page: Seq<char>,
    root_selector: Seq<char>,
    skip_selector: Seq<char>,
) -> Seq<char>;

/// The byte length of the parsed document serialized back to HTML.
pub uninterp spec fn doc_html_len(page: Seq<char>) -> nat;

/// Relies on `scraper::Html::parse_document`, `scraper::Selector::parse` and
/// `ElementRef::attr`: collects the `attr` value of every match of `selector`
/// in document order.
#[verifier::external_body]
fn html_attr_list(page: &str, selector: &str, attr: &str) -> (r: Vec<String>)
    ensures
        r.deep_view() == sel_attr_list(page@, selector@, attr@),
{
    let doc = scraper::Html::parse_document(page);
    let mut out = Vec::new();
    if let Ok(sel) = scraper::Selector::parse(selector) {
        for el in doc.select(&sel) {
            if let Some(v) = el.attr(attr) {
                out.push(v.to_string());
            }
        }
    }
    out
}

/// Relies on `scraper::Html::parse_document`, `scraper::Selector::parse` and
/// `ElementRef::attr`: the `attr` value of the first match of `selector`.
#[verifier::external_body]
fn html_first_attr(page: &str, selector: &str, attr: &str) -> (r: Option<Option<String>>)
    ensures
        r.deep_view() == sel_first_attr(page@, selector@, attr@),
{
    let doc = scraper::Html::parse_document(page);
    let sel = match scraper::Selector::parse(selector) {
        Ok(s) => s,
        Err(_) => return None,
    };
    doc.select(&sel).next().map(|el| el.attr(attr).map(|v| v.to_string()))
}

/// Relies on `scraper::Html::parse_document`, `scraper::Selector::parse` and
/// `ElementRef::text`: the concatenated text of the first match of `selector`.
#[verifier::external_body]
fn html_first_text(page: &str, selector: &str) -> (r: Option<String>)
    ensures
        r.deep_view() == sel_first_text(page@, selector@),
{
    let doc = scraper::Html::parse_document(page);
    let sel = match scraper::Selector::parse(selector) {
        Ok(s) => s,
        Err(_) => return None,
    };
    doc.select(&sel).next().map(|el| el.text().collect::<String>())
}

/// Relies on `scraper::Html::parse_document`, `scraper::Selector::parse`,
/// `Selector::matches` and `ElementRef::text`: for the first match of
/// `root_selector`, the whitespace-trimmed text of each descendant element
/// not matching `skip_selector`, joined with single spaces.
#[verifier::external_body]
fn html_text_joined(page: &str, root_selector: &str, skip_selector: &str) -> (r: String)
    ensures
        r@ == page_text(page@, root_selector@, skip_selector@),
{
    let doc = scraper::Html::parse_document(page);
    let sels = (scraper::Selector::parse(root_selector), scraper::Selector::parse("*"), scraper::Selector::parse(skip_selector));
    let mut out = String::new();
    if let (Ok(root), Ok(all), Ok(skip)) = sels {
        if let Some(body) = doc.select(&root).next() {
            for node in body.select(&all) {
                let t = node.text().collect::<Vec<_>>().join(" ");
                if !skip.matches(&node) && !t.trim().is_empty() {
                    out.push_str(t.trim());
                    out.push(' ');
                }
            }
        }
    }
    out.trim().to_string()
}

/// Relies on `scraper::Html::parse_document` and `ElementRef::html`: the byte
/// length of the document serialized back to HTML.
#[verifier::external_body]
fn html_doc_len(page: &str) -> (r: usize)
    ensures
        r as nat == doc_html_len(page@),
{
    scraper::Html::parse_document(page).root_element().html().len()
}

/// `s` ends with `suffix`.
pub open spec fn seq_ends_with(s: Seq<char>, suffix: Seq<char>) -> bool {
    suffix.len() <= s.len() && s.subrange(s.len() - suffix.len(), s.len() as int) == suffix
}

pub(crate) fn str_ends_with(s: &str, suffix: &str) -> (r: bool)
    ensures
        r == seq_ends_with(s@, suffix@),
{
    let n = s.unicode_len();
    let m = suffix.unicode_len();
    if m > n {
        return false;
    }
    let ghost tail = s@.subrange(s@.len() - suffix@.len(), s@.len() as int);
    let mut j: usize = 0;
    while j < m
        invariant
            n == s@.len(),
            m == suffix@.len(),
            m <= n,
            0 <= j <= m,
            tail == s@.subrange(s@.len() - suffix@.len(), s@.len() as int),
            forall|k: int| 0 <= k < j ==> tail[k] == suffix@[k],
        decreases m - j,
    {
        if s.get_char(n - m + j) != suffix.get_char(j) {
            proof {
                assert(tail[j as int] == s@[n - m + j]);
                assert(tail != suffix@);
            }
            return false;
        }
        j = j + 1;
    }
    proof {
        assert(tail =~= suffix@);
    }
    true
}

/// The extensions a link must not end with: images, audio, video, fonts,
/// documents, data and markup, archives, and executables or disk images.
pub open spec fn denied_exts() -> Seq<Seq<char>> {
    seq![
        ".jpg"@, ".jpeg"@, ".png"@, ".gif"@, ".svg"@, ".webp"@, ".bmp"@, ".ico"@, ".tiff"@,
        ".tif"@, ".heic"@, ".heif"@, ".psd"@, ".eps"@,
        ".mp3"@, ".wav"@, ".wma"@, ".wpl"@, ".mpa"@, ".ogg"@, ".aac"@, ".flac"@, ".m4a"@,
        ".aiff"@,
        ".mp4"@, ".avi"@, ".mov"@, ".wmv"@, ".flv"@, ".mkv"@, ".webm"@, ".m4v"@,
        ".woff"@, ".woff2"@, ".ttf"@, ".otf"@, ".eot"@,
        ".pdf"@, ".doc"@, ".docx"@, ".csv"@, ".log"@, ".key"@, ".odp"@, ".pps"@, ".ppt"@,
        ".pptx"@, ".dump"@,
        ".yaml"@, ".yml"@, ".xml"@, ".css"@, ".js"@, ".txt"@, ".sql"@, ".db"@, ".rss"@,
        ".zip"@, ".tar"@, ".tar.gz"@, ".rar"@, ".7z"@, ".arj"@, ".z"@, ".rpm"@, ".deb"@, ".pkg"@,
        ".bin"@, ".msi"@, ".exe"@, ".sh"@, ".bat"@, ".dmg"@, ".iso"@, ".toast"@, ".vcd"@,
        ".swf"@, ".xap"@,
    ]
}

/// The href ends with one of the denied extensions.
pub open spec fn spec_denied_href(href: Seq<char>) -> bool {
    exists|i: int| 0 <= i < denied_exts().len() && seq_ends_with(href, #[trigger] denied_exts()[i])
}

fn denied_extensions() -> (r: Vec<&'static str>)
    ensures
        r.deep_view() == denied_exts(),
{
    let v: Vec<&'static str> = vec![
        ".jpg", ".jpeg", ".png", ".gif", ".svg", ".webp", ".bmp", ".ico", ".tiff",
        ".tif", ".heic", ".heif", ".psd", ".eps",
        ".mp3", ".wav", ".wma", ".wpl", ".mpa", ".ogg", ".aac", ".flac", ".m4a",
        ".aiff",
        ".mp4", ".avi", ".mov", ".wmv", ".flv", ".mkv", ".webm", ".m4v",
        ".woff", ".woff2", ".ttf", ".otf", ".eot",
        ".pdf", ".doc", ".docx", ".csv", ".log", ".key", ".odp", ".pps", ".ppt",
        ".pptx", ".dump",
        ".yaml", ".yml", ".xml", ".css", ".js", ".txt", ".sql", ".db", ".rss",
        ".zip", ".tar", ".tar.gz", ".rar", ".7z", ".arj", ".z", ".rpm", ".deb", ".pkg",
        ".bin", ".msi", ".exe", ".sh", ".bat", ".dmg", ".iso", ".toast", ".vcd",
        ".swf", ".xap",
    ];
    proof {
        assert(v.deep_view() =~= denied_exts());
    }
    v
}

/// Whether a raw href ends with a denied extension (a case-sensitive suffix
/// test against the href as written).
pub fn is_denied_href(href: &str) -> (r: bool)
    ensures
        r == spec_denied_href(href@),
{
    let exts = denied_extensions();
    let n = exts.len();
    let mut i: usize = 0;
    while i < n
        invariant
            n == exts@.len(),
            exts.deep_view() == denied_exts(),
            0 <= i <= n,
            forall|j: int| 0 <= j < i ==> !seq_ends_with(href@, #[trigger] denied_exts()[j]),
        decreases n - i,
    {
        let ext: &&str = &exts[i];
        if str_ends_with(href, ext) {
            proof {
                assert(seq_ends_with(href@, denied_exts()[i as int]));
            }
            return true;
        }
        proof {
            assert(exts.deep_view()[i as int] == exts@[i as int]@);
        }
        i = i + 1;
    }
    false
}

/// What the scraper extracts from one page.
pub struct ScrapedPage {
    /// The trimmed text of the first `title` element.
    pub title: Option<String>,
    /// The resolved favicon URL, from the first icon `link` element.
    pub favicon_url: Option<String>,
    /// The page text: lowercased, word-filtered, space-joined, and truncated
    /// to 128 bytes.
    pub content: Option<String>,
    /// The HTML body column; not populated by the crawler.
    pub html: Option<String>,
    /// The byte length of the document serialized back to HTML.
    pub html_length: usize,
    /// The canonicalized links of the page, without denied extensions and
    /// without duplicates, in document order.
    pub links: Vec<String>,
    /// Whether the page has an `h1` element.
    pub has_h1: bool,
    /// The trimmed `content` of the first matching description `meta` element.
    pub meta_description: Option<String>,
    /// The trimmed `content` of the first matching keywords `meta` element.
    pub meta_keywords: Option<String>,
    /// The trimmed `content` of the first matching theme-color `meta` element.
    pub meta_theme_color: Option<String>,
    /// The trimmed `content` of the first matching og:image `meta` element.
    pub meta_og_image: Option<String>,
}

/// The links collected from the raw hrefs of a page: each href that does not
/// end with a denied extension and that resolves against the page URL adds
/// its resolved form, first occurrence only.
pub open spec fn collect_links(
    page_url: Seq<char>,
    hrefs: Seq<Seq<char>>,
    acc: Seq<Seq<char>>,
) -> Seq<Seq<char>>
    decreases hrefs.len(),
{
    if hrefs.len() == 0 {
        acc
    } else {
        let step = if !spec_denied_href(hrefs[0]) {
            match href_canon(page_url, hrefs[0]) {
                Some(u) => if acc.contains(u) {
                    acc
                } else {
                    acc.push(u)
                },
                None => acc,
            }
        } else {
            acc
        };
        collect_links(page_url, hrefs.drop_first(), step)
    }
}

/// `l` is the resolution, against the page URL, of some href of the page
/// that is not on the extension deny-list.
pub open spec fn href_canon_of_page(l: Seq<char>, url: Seq<char>, hrefs: Seq<Seq<char>>) -> bool {
    exists|k: int|
        0 <= k < hrefs.len() && !spec_denied_href(#[trigger] hrefs[k]) && href_canon(url, hrefs[k])
            == Some(l)
}

/// The links of a page: its `a[href]` hrefs, filtered and resolved.
pub open spec fn spec_links(page_url: Seq<char>, page: Seq<char>) -> Seq<Seq<char>> {
    collect_links(page_url, sel_attr_list(page, "a[href]"@, "href"@), Seq::empty())
}

/// The title of a page: the trimmed text of its first `title` element.
pub open spec fn spec_title(page: Seq<char>) -> Option<Seq<char>> {
    match sel_first_text(page, "title"@) {
        Some(t) => Some(trimmed(t)),
        None => None,
    }
}

/// The favicon URL of a page: the href of its first icon `link` element,
/// kept as-is when it begins with `http`, otherwise resolved against
/// `https://{domain}` with a single leading `/` stripped.
pub open spec fn spec_favicon(domain: Seq<char>, page: Seq<char>) -> Option<Seq<char>> {
    match sel_first_attr(page, "link[rel=\"icon\"], link[rel=\"shortcut icon\"]"@, "href"@) {
        Some(Some(href)) => if spec_starts_with_http(href) {
            Some(href)
        } else {
            let stripped = if href.len() >= 1 && href[0] == '/' {
                href.subrange(1, href.len() as int)
            } else {
                href
            };
            href_canon("https://"@ + domain, stripped)
        },
        _ => None,
    }
}

/// The trimmed `content` attribute of the first element matching `selector`.
pub open spec fn spec_meta(page: Seq<char>, selector: Seq<char>) -> Option<Seq<char>> {
    match sel_first_attr(page, selector, "content"@) {
        Some(Some(v)) => Some(trimmed(v)),
        _ => None,
    }
}

/// The content column of a page: its text lowercased, word-filtered,
/// space-joined, and truncated to 128 bytes.
pub open spec fn spec_content(page: Seq<char>) -> Seq<char> {
    spec_safe_slice(
        join_spaced(words_spec(lower_of(page_text(page, "body"@, "script, style, noscript"@)))),
        128,
    )
}

/// Whether the vector holds a string with this view.
pub(crate) fn vec_contains(v: &Vec<String>, x: &String) -> (r: bool)
    ensures
        r == v.deep_view().contains(x@),
{
    let n = v.len();
    let mut i: usize = 0;
    while i < n
        invariant
            n == v@.len(),
            0 <= i <= n,
            forall|j: int| 0 <= j < i ==> v.deep_view()[j] != x@,
        decreases n - i,
    {
        if v[i] == *x {
            proof {
                assert(v.deep_view()[i as int] == x@);
            }
            return true;
        }
        proof {
            assert(v.deep_view()[i as int] == v@[i as int]@);
        }
        i = i + 1;
    }
    proof {
        assert_by_contradiction!(!v.deep_view().contains(x@), {
            let k = choose|k: int| 0 <= k < v.deep_view().len() && v.deep_view()[k] == x@;
        });
    }
    false
}

fn extract_links(url: &str, page: &str) -> (r: Vec<String>)
    ensures
        r.deep_view() == spec_links(url@, page@),
{
    let hrefs = html_attr_list(page, "a[href]", "href");
    let ghost hs = hrefs.deep_view();
    let n = hrefs.len();
    let mut links: Vec<String> = Vec::new();
    let mut i: usize = 0;
    proof {
        assert(hs.skip(0) =~= hs);
        assert(links.deep_view() =~= Seq::<Seq<char>>::empty());
    }
    while i < n
        invariant
            n == hrefs@.len(),
            hs == hrefs.deep_view(),
            hs.len() == n,
            0 <= i <= n,
            collect_links(url@, hs, Seq::empty()) == collect_links(
                url@,
                hs.skip(i as int),
                links.deep_view(),
            ),
        decreases n - i,
    {
        let href: &String = &hrefs[i];
        proof {
            assert(hs[i as int] == hrefs@[i as int]@);
            assert(hs.skip(i as int)[0] == hs[i as int]);
            assert(hs.skip(i as int).drop_first() =~= hs.skip(i as int + 1));
        }
        let ghost links0 = links.deep_view();
        if !is_denied_href(href.as_str()) {
            match normalize_href(url, href.as_str()) {
                Ok(u) => {
                    if !vec_contains(&links, &u) {
                        links.push(u);
                        proof {
                            assert(links.deep_view() =~= links0.push(
                                href_canon(url@, hs[i as int])->Some_0,
                            ));
                        }
                    }
                },
                Err(_) => {},
            }
        }
        i = i + 1;
    }
    proof {
        assert(hs.skip(n as int).len() == 0);
    }
    links
}

/// Scrape one page. Pure: every field of the result is a function of the
/// domain, the page URL and the HTML text alone, so repeated calls on equal
/// inputs return equal results.
pub fn scrape_page(domain: String, url: String, page: String) -> (r: ScrapedPage)
    ensures
        r.title.deep_view() == spec_title(page@),
        r.favicon_url.deep_view() == spec_favicon(domain@, page@),
        r.content.deep_view() == Some(spec_content(page@)),
        r.html is None,
        r.html_length as nat == doc_html_len(page@),
        r.links.deep_view() == spec_links(url@, page@),
        r.has_h1 == (sel_first_text(page@, "h1"@) is Some),
        r.meta_description.deep_view() == spec_meta(
            page@,
            "meta[name=\"description\"], meta[property=\"description\"]"@,
        ),
        r.meta_keywords.deep_view() == spec_meta(
            page@,
            "meta[name=\"keywords\"], meta[property=\"keywords\"]"@,
        ),
        r.meta_theme_color.deep_view() == spec_meta(
            page@,
            "meta[name=\"theme-color\"], meta[property=\"theme-color\"]"@,
        ),
        r.meta_og_image.deep_view() == spec_meta(
            page@,
            "meta[name=\"og:image\"], meta[property=\"og:image\"]"@,
        ),
{
    let links = extract_links(url.as_str(), page.as_str());
    let title = match html_first_text(page.as_str(), "title") {
        Some(t) => Some(trim_str(t.as_str())),
        None => None,
    };
    let has_h1 = html_first_text(page.as_str(), "h1").is_some();
    let favicon_url = extract_favicon_url(domain.as_str(), page.as_str());
    let text = html_text_joined(page.as_str(), "body", "script, style, noscript");
    let lowered = lowercase(text.as_str());
    let words = match extract_words(lowered.as_str()) {
        Some(ws) => ws,
        None => Vec::new(),
    };
    let joined = join_words(&words);
    let content = Some(safe_slice(joined.as_str(), 128));
    let html_length = html_doc_len(page.as_str());
    ScrapedPage {
        title,
        favicon_url,
        content,
        html: None,
        html_length,
        links,
        has_h1,
        meta_description: extract_meta_content(
            page.as_str(),
            "meta[name=\"description\"], meta[property=\"description\"]",
        ),
        meta_keywords: extract_meta_content(
            page.as_str(),
            "meta[name=\"keywords\"], meta[property=\"keywords\"]",
        ),
        meta_theme_color: extract_meta_content(
            page.as_str(),
            "meta[name=\"theme-color\"], meta[property=\"theme-color\"]",
        ),
        meta_og_image: extract_meta_content(
            page.as_str(),
            "meta[name=\"og:image\"], meta[property=\"og:image\"]",
        ),
    }
}

/// The favicon URL of a page, per `spec_favicon`.
pub fn extract_favicon_url(domain: &str, page: &str) -> (r: Option<String>)
    ensures
        r.deep_view() == spec_favicon(domain@, page@),
{
    match html_first_attr(page, "link[rel=\"icon\"], link[rel=\"shortcut icon\"]", "href") {
        Some(Some(href)) => {
            if crate::urls::starts_with_http(href.as_str()) {
                Some(href)
            } else {
                let s = href.as_str();
                let n = s.unicode_len();
                let stripped = if n >= 1 && s.get_char(0) == '/' {
                    s.substring_char(1, n)
                } else {
                    s
                };
                let mut base = String::from_str("https://");
                base.append(domain);
                match normalize_href(base.as_str(), stripped) {
                    Ok(u) => Some(u),
                    Err(_) => None,
                }
            }
        },
        _ => None,
    }
}

/// The trimmed `content` attribute of the first element matching `selector`.
pub fn extract_meta_content(page: &str, selector: &str) -> (r: Option<String>)
    ensures
        r.deep_view() == spec_meta(page@, selector@),
{
    match html_first_attr(page, selector, "content") {
        Some(Some(v)) => Some(trim_str(v.as_str())),
        _ => None,
    }
}

/// The SEO score of a scraped page, before clamping: points for a title, a
/// meta description (more when its byte length lies in [50, 160]), meta
/// keywords, an og:image, an `h1`, and at least five links.
pub open spec fn spec_seo_points(p: ScrapedPage) -> int {
    (if p.title is Some {
        25int
    } else {
        0int
    }) + (match p.meta_description {
        Some(d) => 20int + (if 50 <= (encode_utf8(d@).len() as usize) <= 160 {
            5int
        } else {
            0int
        }),
        None => 0int,
    }) + (if p.meta_keywords is Some {
        20int
    } else {
        0int
    }) + (if p.meta_og_image is Some {
        10int
    } else {
        0int
    }) + (if p.has_h1 {
        10int
    } else {
        0int
    }) + (if p.links@.len() >= 5 {
        10int
    } else {
        0int
    })
}

/// The SEO score clamped to [0, 100].
pub open spec fn spec_seo_score(p: ScrapedPage) -> int {
    if spec_seo_points(p) > 100 {
        100int
    } else if spec_seo_points(p) < 0 {
        0int
    } else {
        spec_seo_points(p)
    }
}

/// Score a scraped page for basic SEO signals, clamped to [0, 100].
pub fn calculate_seo_score(scraped: &ScrapedPage) -> (score: i32)
    ensures
        score == spec_seo_score(*scraped),
        0 <= score <= 100,
{
    let mut seo_score: i32 = 0;
    if scraped.title.is_some() {
        seo_score = seo_score + 25;
    }
    match &scraped.meta_description {
        Some(desc) => {
            seo_score = seo_score + 20;
            let len = desc.as_str().len();
            if 50 <= len && len <= 160 {
                seo_score = seo_score + 5;
            }
        },
        None => {},
    }
    if scraped.meta_keywords.is_some() {
        seo_score = seo_score + 20;
    }
    if scraped.meta_og_image.is_some() {
        seo_score = seo_score + 10;
    }
    if scraped.has_h1 {
        seo_score = seo_score + 10;
    }
    if scraped.links.len() >= 5 {
        seo_score = seo_score + 10;
    }
    if seo_score > 100 {
        100
    } else if seo_score < 0 {
        0
    } else {
        seo_score
    }
}

} // verus!
