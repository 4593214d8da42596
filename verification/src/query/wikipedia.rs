//! The remote encyclopedia provider: a single title search against a
//! configured HTTP API, one result per returned page.  Issuing the request
//! and decoding the body is I/O and stays outside the library; building the
//! request parameters, the endpoint path and the per-page results is here.

use vstd::prelude::*;

use crate::response::DisplayContent;
use crate::response::QueryResponse;
use crate::response::ResponseAction;
use crate::text::trim_spec;
use crate::text::trim_str;

verus! {

/// The page list of a search response.
#[derive(Debug, Clone, PartialEq, Eq)]
pub struct SearchResults {
    pub pages: Vec<SearchResult>,
}

/// One page of a search response.
#[derive(Debug, Clone, PartialEq, Eq)]
pub struct SearchResult {
    pub id: u64,
    pub key: String,
    pub title: String,
    pub excerpt: String,
    pub matched_title: Option<String>,
    pub description: Option<String>,
    pub thumbnail: Option<Thumbnail>,
}

/// The thumbnail a page may carry.
#[derive(Debug, Clone, PartialEq, Eq)]
pub struct Thumbnail {
    pub mimetype: String,
    pub size: Option<u64>,
    pub width: Option<u64>,
    pub height: Option<u64>,
    pub duration: Option<u64>,
    pub url: String,
}

/// Parameters of a full-text content search.
#[derive(Debug, Clone, PartialEq, Eq)]
pub struct SearchContent {
    pub project: String,
    pub language: String,
    pub query: String,
    pub limit: Option<u8>,
}

impl SearchContent {
    /// The endpoint template of the content search.
    pub fn endpoint() -> (r: &'static str)
        ensures
            r@ == "/core/v1/{project}/{language}/search/page"@,
    {
        "/core/v1/{project}/{language}/search/page"
    }
}

/// Parameters of a title search.
#[derive(Debug, Clone, PartialEq, Eq)]
pub struct SearchTitle {
    pub project: String,
    pub language: String,
    pub query: String,
    pub limit: Option<u8>,
}

impl SearchTitle {
    /// The endpoint template of the title search.
    pub fn endpoint() -> (r: &'static str)
        ensures
            r@ == "/core/v1/{project}/{language}/search/title"@,
    {
        "/core/v1/{project}/{language}/search/title"
    }
}

/// Relies on `strfmt::strfmt`: on a template whose only placeholders are
/// `{project}` and `{language}`, it replaces each placeholder with the value
/// registered under that name and copies every other character through, so
/// the title-search template always fills successfully.
#[verifier::external_body]
fn fill_title_endpoint(template: &str, project: &str, language: &str) -> (r: Option<String>)
    requires
        template@ == "/core/v1/{project}/{language}/search/title"@,
    ensures
        r is Some,
        r matches Some(s) ==> s@ == "/core/v1/"@ + project@ + "/"@ + language@
            + "/search/title"@,
{
    let mut vars = std::collections::HashMap::new();
    vars.insert("project".to_string(), project.to_string());
    vars.insert("language".to_string(), language.to_string());
    strfmt::strfmt(template, &vars).ok()
}

/// The remote encyclopedia provider.
#[derive(Debug, Clone, Copy, PartialEq, Eq)]
pub struct WikipediaEngine;

impl WikipediaEngine {
    /// A fresh provider handle.  The HTTP client this provider searches with
    /// is owned by the I/O layer around the library.
    pub fn new() -> WikipediaEngine {
        WikipediaEngine
    }

    /// The provider's name.
    pub fn name(&self) -> (r: &'static str)
        ensures
            r@ == "wikipedia"@,
    {
        "wikipedia"
    }

    /// The routing prefix that addresses this provider alone.
    pub fn prefix(&self) -> (r: &'static str)
        ensures
            r@ == "@wi"@,
    {
        "@wi"
    }

    /// The icon marker shown next to this provider's results.
    pub fn icon(&self) -> (r: &'static str)
        ensures
            r@ == "\u{f05ac}"@,
    {
        "\u{f05ac}"
    }

    /// The parameters of the one title search a query issues: English
    /// Wikipedia, the raw query text, no explicit limit.
    pub fn title_search(query: &str) -> (r: SearchTitle)
        ensures
            r.project@ == "wikipedia"@,
            r.language@ == "en"@,
            r.query@ == query@,
            r.limit is None,
    {
        SearchTitle {
            project: String::from_str("wikipedia"),
            language: String::from_str("en"),
            query: String::from_str(query),
            limit: None,
        }
    }

    /// The request path of the title search: the endpoint template with the
    /// search's project and language filled in.
    pub fn search_path(search: &SearchTitle) -> (r: String)
        ensures
            r@ == "/core/v1/"@ + search.project@ + "/"@ + search.language@ + "/search/title"@,
    {
        match fill_title_endpoint(
            SearchTitle::endpoint(),
            search.project.as_str(),
            search.language.as_str(),
        ) {
            Some(path) => path,
            None => {
                proof {
                    assert(false);
                }
                String::new()
            },
        }
    }

    /// The result for the page at `index` of the response: title and
    /// description to display (trimmed, the description may be absent), an
    /// open-article action, and a priority that starts at 5 and decreases
    /// with the page's rank.
    pub fn page_response(&self, page: &SearchResult, language: &str, index: usize) -> (r:
        QueryResponse)
        requires
            index as int <= i64::MAX as int,
        ensures
            r.priority as int == 5 - index as int,
            r.display.marker@ == "\u{f05ac}"@,
            r.display.primary@ == trim_spec(
                "("@ + page.title@ + ") "@ + match page.description {
                    Some(d) => d@,
                    None => ""@,
                },
            ),
            r.display.secondary is None,
            r.action matches ResponseAction::OpenUrl { url } && url@ == "https://"@ + language@
                + ".wikipedia.org/wiki/"@ + page.key@,
            r.duration is None,
            r.extra_state is None,
    {
        let mut headline = String::from_str("(");
        headline.append(page.title.as_str());
        headline.append(") ");
        match &page.description {
            Some(d) => headline.append(d.as_str()),
            None => (),
        }
        proof {
            reveal_strlit("");
            assert(headline@ + ""@ =~= headline@);
        }
        let display = DisplayContent {
            marker: String::from_str(self.icon()),
            primary: trim_str(headline.as_str()),
            secondary: None,
        };
        let mut url = String::from_str("https://");
        url.append(language);
        url.append(".wikipedia.org/wiki/");
        url.append(page.key.as_str());
        let priority: i64 = 5 - (index as i64);
        QueryResponse::new(display, ResponseAction::OpenUrl { url }, priority)
    }
}

} // verus!
