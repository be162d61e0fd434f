//! Source configurations and the per-source scrape: link discovery on the
//! index page, field extraction on each article page, and the rule that a
//! failed article is dropped while a failed index fails the source.
//!
//! Fetching itself happens outside this module: the functions here take what
//! a fetch returned and decide what follows from it.
use vstd::prelude::*;

use crate::article::{Article, ArticleView};
use crate::html::{first_or_empty, select_attr, selected_attr, selected_inner_html, selector_parses, CssSelector, Document};

verus! {

/// Why one page could not be fetched.
#[derive(Clone, Copy, Debug, PartialEq, Eq, Structural)]
pub enum FetchError {
    /// Connection, DNS, TLS or timeout failure.
    Network,
    /// The server answered with a status outside 200..=299.
    HttpStatus(u16),
}

/// A source configuration that cannot be used.
#[derive(Clone, Debug, PartialEq, Eq)]
pub enum ConfigError {
    /// The selector with this text is not a valid selector group.
    InvalidSelector(String),
}

/// Whether an HTTP status code reports success.
pub open spec fn is_success(status: u16) -> bool {
    200 <= status < 300
}

/// Turns an HTTP answer into a fetch outcome: the body on a 2xx status, else
/// the status as an error.
pub fn classify_response(status: u16, body: String) -> (r: Result<String, FetchError>)
    ensures
        is_success(status) ==> r == Ok::<String, FetchError>(body),
        !is_success(status) ==> r == Err::<String, FetchError>(FetchError::HttpStatus(status)),
{
    if 200 <= status && status < 300 {
        Ok(body)
    } else {
        Err(FetchError::HttpStatus(status))
    }
}

/// Compiles one selector of a configuration, naming it in the error.
fn compile(text: &str) -> (r: Result<CssSelector, ConfigError>)
    ensures
        r.is_ok() == selector_parses(text@),
        r matches Ok(s) ==> s@ == text@,
        r matches Err(ConfigError::InvalidSelector(t)) ==> t@ == text@,
{
    match CssSelector::parse(text) {
        Some(s) => Ok(s),
        None => Err(ConfigError::InvalidSelector(String::from_str(text))),
    }
}

/// The first text of `texts` that is not a valid selector group, if any.
pub open spec fn first_invalid(texts: Seq<Seq<char>>) -> Option<Seq<char>>
    decreases texts.len(),
{
    if texts.len() == 0 {
        None
    } else if !selector_parses(texts[0]) {
        Some(texts[0])
    } else {
        first_invalid(texts.subrange(1, texts.len() as int))
    }
}

/// The header names and values of a header list, as character sequences.
pub open spec fn names_values(h: Seq<(String, String)>) -> Seq<(Seq<char>, Seq<char>)> {
    h.map_values(|p: (String, String)| (p.0@, p.1@))
}

/// The name of the header that carries the client's identification.
pub open spec fn user_agent() -> Seq<char> {
    "user-agent"@
}

/// `own` merged over the default header set, which holds one empty
/// `user-agent`: the default is kept only where `own` does not set it.
pub open spec fn merged_headers(own: Seq<(Seq<char>, Seq<char>)>) -> Seq<(Seq<char>, Seq<char>)> {
    if exists|i: int| 0 <= i < own.len() && #[trigger] own[i].0 == user_agent() {
        own
    } else {
        seq![(user_agent(), Seq::<char>::empty())] + own
    }
}

/// The header set of an article fetch: the defaults alone.
pub fn article_headers() -> (r: Vec<(String, String)>)
    ensures
        names_values(r@) == merged_headers(Seq::empty()),
{
    let r = vec![(String::from_str("user-agent"), String::new())];
    assert(names_values(r@) =~= merged_headers(Seq::empty()));
    r
}

/// Every link that a sequence of `href` values yields, in order: each present
/// value prefixed with `base`, each absent one skipped. Repeated links are
/// kept.
pub open spec fn resolve_links(base: Seq<char>, hrefs: Seq<Option<Seq<char>>>) -> Seq<Seq<char>>
    decreases hrefs.len(),
{
    if hrefs.len() == 0 {
        Seq::empty()
    } else {
        let rest = resolve_links(base, hrefs.drop_last());
        match hrefs.last() {
            Some(h) => rest.push(base + h),
            None => rest,
        }
    }
}

/// One configured news source.
pub struct Site {
    /// Unique name of the source.
    pub name: String,
    /// Address of the index page that lists the articles.
    pub url: String,
    /// Prefix that turns a link found on the index page into an address.
    pub base_url: String,
    /// Picks the article links on the index page.
    pub link_selector: CssSelector,
    /// Pick the fields of an article page.
    pub title_selector: CssSelector,
    pub subtitle_selector: CssSelector,
    pub author_selector: CssSelector,
    pub date_selector: CssSelector,
    /// Headers sent with the index request, by lower-case name.
    pub headers: Vec<(String, String)>,
}

impl Site {
    /// The article that a page `body` fetched from `url` yields: the first
    /// match of each field selector, or the empty text where none matches.
    pub open spec fn article_from(&self, body: Seq<char>, url: Seq<char>) -> ArticleView {
        ArticleView {
            title: first_or_empty(selected_inner_html(body, self.title_selector@)),
            subtitle: first_or_empty(selected_inner_html(body, self.subtitle_selector@)),
            author: first_or_empty(selected_inner_html(body, self.author_selector@)),
            date: first_or_empty(selected_inner_html(body, self.date_selector@)),
            url,
            source: self.name@,
        }
    }

    /// The links that the index page `body` lists.
    pub open spec fn links_of(&self, body: Seq<char>) -> Seq<Seq<char>> {
        resolve_links(self.base_url@, selected_attr(body, self.link_selector@, "href"@))
    }

    /// The articles for the pages fetched from `links`, the i-th page from
    /// the i-th link: one per page that was fetched, in link order, and none
    /// for a page whose fetch failed.
    pub open spec fn kept_articles(
        &self,
        links: Seq<Seq<char>>,
        pages: Seq<Result<String, FetchError>>,
    ) -> Seq<ArticleView>
        decreases pages.len(),
    {
        if pages.len() == 0 {
            Seq::empty()
        } else {
            let rest = self.kept_articles(links, pages.drop_last());
            match pages.last() {
                Ok(body) => rest.push(self.article_from(body@, links[pages.len() - 1])),
                Err(_) => rest,
            }
        }
    }

    /// The header set of this source's index fetch: its own headers merged
    /// over the defaults.
    pub fn index_headers(&self) -> (r: Vec<(String, String)>)
        ensures
            names_values(r@) == merged_headers(names_values(self.headers@)),
    {
        let ghost own = names_values(self.headers@);
        let mut r: Vec<(String, String)> = Vec::new();
        let mut has_agent = false;
        let mut i: usize = 0;
        while i < self.headers.len()
            invariant
                i <= self.headers.len(),
                own == names_values(self.headers@),
                names_values(r@) == own.take(i as int),
                has_agent == exists|j: int| 0 <= j < i && #[trigger] own[j].0 == user_agent(),
            decreases self.headers.len() - i,
        {
            let name = self.headers[i].0.clone();
            let value = self.headers[i].1.clone();
            let agent = String::from_str("user-agent");
            assert(own[i as int] == (name@, value@));
            if name == agent {
                has_agent = true;
            }
            r.push((name, value));
            proof {
                assert(names_values(r@) =~= own.take(i as int).push(own[i as int]));
                assert(own.take(i + 1) =~= own.take(i as int).push(own[i as int]));
                if own[i as int].0 == user_agent() {
                    assert(0 <= i < i + 1 && own[i as int].0 == user_agent());
                }
            }
            i = i + 1;
        }
        assert(own.take(i as int) =~= own);
        if has_agent {
            r
        } else {
            let mut merged = vec![(String::from_str("user-agent"), String::new())];
            merged.append(&mut r);
            assert(names_values(merged@) =~= merged_headers(own));
            merged
        }
    }

    /// The links that an index fetch yields. A failed fetch is returned as
    /// it is; otherwise each element that the link selector picks gives its
    /// `href` prefixed with the base address, in the order of the page, and
    /// elements without `href` are skipped.
    pub fn get_top_links(&self, index: Result<String, FetchError>) -> (r: Result<
        Vec<String>,
        FetchError,
    >)
        ensures
            index matches Err(e) ==> r == Err::<Vec<String>, FetchError>(e),
            index matches Ok(body) ==> r matches Ok(links) && links.deep_view() == self.links_of(
                body@,
            ),
    {
        let body = match index {
            Ok(body) => body,
            Err(e) => return Err(e),
        };
        let doc = Document::parse(body);
        let hrefs = select_attr(&doc, &self.link_selector, "href");
        let ghost hv = hrefs.deep_view();
        let mut links: Vec<String> = Vec::new();
        let mut i: usize = 0;
        while i < hrefs.len()
            invariant
                i <= hrefs.len(),
                hv == hrefs.deep_view(),
                hv == selected_attr(doc@, self.link_selector@, "href"@),
                links.deep_view() == resolve_links(self.base_url@, hv.take(i as int)),
            decreases hrefs.len() - i,
        {
            proof {
                assert(hv.take(i + 1).drop_last() =~= hv.take(i as int));
            }
            match &hrefs[i] {
                Some(h) => {
                    let link = self.base_url.clone().concat(h.as_str());
                    links.push(link);
                    proof {
                        assert(links.deep_view() =~= resolve_links(
                            self.base_url@,
                            hv.take(i + 1),
                        ));
                    }
                },
                None => {},
            }
            i = i + 1;
        }
        assert(hv.take(i as int) =~= hv);
        Ok(links)
    }

    /// The article that the page `body`, fetched from `url`, yields. Absent
    /// fields are empty; this never fails.
    pub fn parse_article_text(&self, body: String, url: String) -> (r: Article)
        ensures
            r@ == self.article_from(body@, url@),
    {
        let doc = Document::parse(body);
        Article {
            title: doc.extract(&self.title_selector),
            subtitle: doc.extract(&self.subtitle_selector),
            author: doc.extract(&self.author_selector),
            date: doc.extract(&self.date_selector),
            url,
            source: self.name.clone(),
        }
    }

    /// The article that one article fetch yields, or the fetch's error.
    pub fn parse_article(&self, url: String, page: Result<String, FetchError>) -> (r: Result<
        Article,
        FetchError,
    >)
        ensures
            page matches Err(e) ==> r == Err::<Article, FetchError>(e),
            page matches Ok(body) ==> r matches Ok(a) && a@ == self.article_from(body@, url@),
    {
        match page {
            Ok(body) => Ok(self.parse_article_text(body, url)),
            Err(e) => Err(e),
        }
    }

    /// The articles of this source, from its link list and the page fetched
    /// for each link (the i-th page from the i-th link). The source fails
    /// exactly when its link list does; a page that failed drops only its own
    /// article, and the others keep link order.
    pub fn get_top_articles(
        &self,
        links: Result<Vec<String>, FetchError>,
        pages: Vec<Result<String, FetchError>>,
    ) -> (r: Result<Vec<Article>, FetchError>)
        requires
            links matches Ok(l) ==> l.len() == pages.len(),
        ensures
            r.is_err() == links.is_err(),
            links matches Err(e) ==> r == Err::<Vec<Article>, FetchError>(e),
            links matches Ok(l) ==> r matches Ok(a) && a.deep_view() == self.kept_articles(
                l.deep_view(),
                pages@,
            ),
    {
        let links = match links {
            Ok(l) => l,
            Err(e) => return Err(e),
        };
        let mut articles: Vec<Article> = Vec::new();
        let mut i: usize = 0;
        while i < pages.len()
            invariant
                i <= pages.len(),
                links.len() == pages.len(),
                articles.deep_view() == self.kept_articles(links.deep_view(), pages@.take(i as int)),
            decreases pages.len() - i,
        {
            proof {
                assert(pages@.take(i + 1).drop_last() =~= pages@.take(i as int));
            }
            match &pages[i] {
                Ok(body) => {
                    let a = self.parse_article_text(body.clone(), links[i].clone());
                    articles.push(a);
                    proof {
                        assert(articles.deep_view() =~= self.kept_articles(
                            links.deep_view(),
                            pages@.take(i + 1),
                        ));
                    }
                },
                Err(_) => {},
            }
            i = i + 1;
        }
        assert(pages@.take(i as int) =~= pages@);
        Ok(articles)
    }

    /// Builds a source from its identity, its five selectors and its index
    /// headers. Fails, naming the first invalid selector (in the order link,
    /// title, subtitle, author, date), exactly when one does not compile.
    pub fn new(
        name: String,
        url: String,
        base_url: String,
        link: &str,
        title: &str,
        subtitle: &str,
        author: &str,
        date: &str,
        headers: Vec<(String, String)>,
    ) -> (r: Result<Site, ConfigError>)
        ensures
            r.is_ok() == first_invalid(seq![link@, title@, subtitle@, author@, date@]).is_none(),
            r matches Err(ConfigError::InvalidSelector(t)) ==> first_invalid(
                seq![link@, title@, subtitle@, author@, date@],
            ) == Some(t@),
            r matches Ok(s) ==> {
                &&& s.name == name
                &&& s.url == url
                &&& s.base_url == base_url
                &&& s.link_selector@ == link@
                &&& s.title_selector@ == title@
                &&& s.subtitle_selector@ == subtitle@
                &&& s.author_selector@ == author@
                &&& s.date_selector@ == date@
                &&& s.headers == headers
            },
    {
        let ghost texts = seq![link@, title@, subtitle@, author@, date@];
        proof {
            assert(texts.subrange(1, 5) =~= seq![title@, subtitle@, author@, date@]);
            assert(texts.subrange(1, 5).subrange(1, 4) =~= seq![subtitle@, author@, date@]);
            assert(texts.subrange(1, 5).subrange(1, 4).subrange(1, 3) =~= seq![author@, date@]);
            assert(texts.subrange(1, 5).subrange(1, 4).subrange(1, 3).subrange(1, 2) =~= seq![date@]);
            assert(seq![date@].subrange(1, 1) =~= Seq::<Seq<char>>::empty());
            reveal_with_fuel(first_invalid, 6);
        }
        let link_selector = match compile(link) {
            Ok(s) => s,
            Err(e) => return Err(e),
        };
        let title_selector = match compile(title) {
            Ok(s) => s,
            Err(e) => return Err(e),
        };
        let subtitle_selector = match compile(subtitle) {
            Ok(s) => s,
            Err(e) => return Err(e),
        };
        let author_selector = match compile(author) {
            Ok(s) => s,
            Err(e) => return Err(e),
        };
        let date_selector = match compile(date) {
            Ok(s) => s,
            Err(e) => return Err(e),
        };
        Ok(
            Site {
                name,
                url,
                base_url,
                link_selector,
                title_selector,
                subtitle_selector,
                author_selector,
                date_selector,
                headers,
            },
        )
    }
}

/// The public identity of a source: what a listing of the sources shows.
#[derive(Clone, Debug, PartialEq, Eq)]
pub struct SourceInfo {
    pub name: String,
    pub url: String,
    pub base_url: String,
}

/// The public identity of each source, in registry order.
pub fn list_sources(sites: &Vec<Site>) -> (r: Vec<SourceInfo>)
    ensures
        r@.len() == sites@.len(),
        forall|i: int|
            0 <= i < r@.len() ==> {
                &&& #[trigger] r@[i].name == sites@[i].name
                &&& r@[i].url == sites@[i].url
                &&& r@[i].base_url == sites@[i].base_url
            },
{
    let mut r: Vec<SourceInfo> = Vec::new();
    let mut i: usize = 0;
    while i < sites.len()
        invariant
            i <= sites.len(),
            r@.len() == i,
            forall|k: int|
                0 <= k < i ==> {
                    &&& #[trigger] r@[k].name == sites@[k].name
                    &&& r@[k].url == sites@[k].url
                    &&& r@[k].base_url == sites@[k].base_url
                },
        decreases sites.len() - i,
    {
        let site = &sites[i];
        r.push(
            SourceInfo {
                name: site.name.clone(),
                url: site.url.clone(),
                base_url: site.base_url.clone(),
            },
        );
        i = i + 1;
    }
    r
}

/// The selectors of the ESPN source, in the order link, title, subtitle,
/// author, date.
pub open spec fn espn_selectors() -> Seq<Seq<char>> {
    seq![
        "section[class*=col-three] ul[class*='headlineStack'] > li > a"@,
        "header[class=article-header] > h1"@,
        "none"@,
        "div:not([class=author-img])[class*=author]"@,
        "div[class=article-meta] span[class*=timestamp]"@,
    ]
}

/// The selectors of the NBA source, in the order link, title, subtitle,
/// author, date.
pub open spec fn nba_selectors() -> Seq<Seq<char>> {
    seq![
        "article[class*='Article'] > a"@,
        "h1[class*=ahTitle]"@,
        "p[class*=ahSubtitle]"@,
        "p[class*=authorName]"@,
        "time[class*=ahDate]"@,
    ]
}

/// The registry of supported sources, ESPN then NBA. Fails exactly when one
/// of their selectors does not compile, which is fatal at start-up.
pub fn get_all() -> (r: Result<Vec<Site>, ConfigError>)
    ensures
        r.is_ok() == (first_invalid(espn_selectors()).is_none() && first_invalid(
            nba_selectors(),
        ).is_none()),
        r matches Ok(v) ==> {
            &&& v@.len() == 2
            &&& v@[0].name@ == "espn"@
            &&& v@[0].url@ == "https://espn.com/nba"@
            &&& v@[0].base_url@ == "https://espn.com"@
            &&& v@[0].headers@.len() == 0
            &&& v@[1].name@ == "nba"@
            &&& v@[1].url@ == "https://nba.com/news/category/top-stories"@
            &&& v@[1].base_url@ == "https://www.nba.com"@
            &&& names_values(v@[1].headers@) == seq![(user_agent(), Seq::<char>::empty())]
        },
{
    let espn = Site::new(
        String::from_str("espn"),
        String::from_str("https://espn.com/nba"),
        String::from_str("https://espn.com"),
        "section[class*=col-three] ul[class*='headlineStack'] > li > a",
        "header[class=article-header] > h1",
        "none",
        "div:not([class=author-img])[class*=author]",
        "div[class=article-meta] span[class*=timestamp]",
        Vec::new(),
    );
    let nba = Site::new(
        String::from_str("nba"),
        String::from_str("https://nba.com/news/category/top-stories"),
        String::from_str("https://www.nba.com"),
        "article[class*='Article'] > a",
        "h1[class*=ahTitle]",
        "p[class*=ahSubtitle]",
        "p[class*=authorName]",
        "time[class*=ahDate]",
        article_headers(),
    );
    match (espn, nba) {
        (Ok(espn), Ok(nba)) => Ok(vec![espn, nba]),
        (Err(e), _) => Err(e),
        (_, Err(e)) => Err(e),
    }
}

} // verus!
