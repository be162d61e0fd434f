use news_scraper::{
    article_expected, article_headers, classify_response, get_all, get_top_articles,
    get_top_articles_from_origin, list_sources, Article, ConfigError, CssSelector, Document,
    FetchError, Site,
};

fn site_mock() -> Site {
    Site::new(
        "".to_string(),
        "".to_string(),
        "".to_string(),
        "none",
        "h1[class*=title]",
        "p[class=subtitle]",
        "p[class*=author]",
        "time",
        Vec::new(),
    )
    .unwrap()
}

fn article_mock_html() -> String {
    scraper::Html::parse_fragment(r#"<!DOCTYPE html> <html> <head> <title>Page Title</title> </head> <body> <h1 class="asdasdasdasd_title_____">title 1</h1> <p class="subtitle">subtitle 1</p> <p class="thisistheauthor">lucas</p> <time>2:00PM</time> <p class="content"> blagh blahg</p> OTHER STUFF WOW LOOKS AT THIS INTERESTING STUFF </body> </html>"#).html()
}

fn link_site(name: &str, base_url: &str) -> Site {
    Site::new(
        name.to_string(),
        format!("{}/index", base_url),
        base_url.to_string(),
        "a.story",
        "h1",
        "h2",
        "p.author",
        "time",
        Vec::new(),
    )
    .unwrap()
}

fn article(title: &str, source: &str) -> Article {
    Article {
        title: title.to_string(),
        subtitle: String::new(),
        author: String::new(),
        date: String::new(),
        url: format!("https://{}.example/{}", source, title),
        source: source.to_string(),
    }
}

#[test]
fn parse_article() {
    let actual_article = Site::parse_article_text(&site_mock(), article_mock_html(), "".to_string());

    assert_eq!(actual_article, article_expected());
}

#[test]
fn extract_takes_first_match() {
    let doc = Document::parse("<p class=\"x\">one</p><p class=\"x\">two</p>".to_string());
    let sel = CssSelector::parse("p.x").unwrap();
    assert_eq!(doc.extract(&sel), "one");
}

#[test]
fn extract_keeps_inner_markup() {
    let doc = Document::parse("<div><span>a<b>b</b></span></div>".to_string());
    let sel = CssSelector::parse("span").unwrap();
    assert_eq!(doc.extract(&sel), "a<b>b</b>");
}

#[test]
fn extract_without_match_is_empty() {
    let doc = Document::parse("<p>one</p>".to_string());
    let sel = CssSelector::parse("time").unwrap();
    assert_eq!(doc.extract(&sel), "");
}

#[test]
fn invalid_selector_is_rejected() {
    assert!(CssSelector::parse("p[[").is_none());
    let sel = CssSelector::parse("div > p").unwrap();
    assert_eq!(sel.text(), "div > p");
}

#[test]
fn scan_resolves_links_in_order() {
    let site = link_site("ex", "https://ex.com");
    let index = "<html><body><a class=\"story\" href=\"/a1\">x</a><a class=\"story\" href=\"/a2\">y</a></body></html>";
    let links = site.get_top_links(Ok(index.to_string())).unwrap();
    assert_eq!(links, vec!["https://ex.com/a1".to_string(), "https://ex.com/a2".to_string()]);
}

#[test]
fn scan_skips_missing_href_and_keeps_repeats() {
    let site = link_site("ex", "https://ex.com");
    let index = "<a class=\"story\">none</a><a class=\"story\" href=\"/b\">1</a><a class=\"other\" href=\"/z\">z</a><a class=\"story\" href=\"/b\">2</a>";
    let links = site.get_top_links(Ok(index.to_string())).unwrap();
    assert_eq!(links, vec!["https://ex.com/b".to_string(), "https://ex.com/b".to_string()]);
}

#[test]
fn scan_of_page_without_links_is_empty() {
    let site = link_site("ex", "https://ex.com");
    let links = site.get_top_links(Ok("<p>nothing</p>".to_string())).unwrap();
    assert!(links.is_empty());
}

#[test]
fn scan_propagates_index_failure() {
    let site = link_site("ex", "https://ex.com");
    assert_eq!(site.get_top_links(Err(FetchError::Network)), Err(FetchError::Network));
    assert_eq!(
        site.get_top_links(Err(FetchError::HttpStatus(404))),
        Err(FetchError::HttpStatus(404))
    );
}

#[test]
fn article_without_date_has_empty_date() {
    let site = link_site("ex", "https://ex.com");
    let page = "<h1>Headline</h1><h2>Sub</h2><p class=\"author\">Ann</p>".to_string();
    let a = site.parse_article_text(page, "https://ex.com/a1".to_string());
    assert_eq!(a.title, "Headline");
    assert_eq!(a.subtitle, "Sub");
    assert_eq!(a.author, "Ann");
    assert_eq!(a.date, "");
    assert_eq!(a.url, "https://ex.com/a1");
    assert_eq!(a.source, "ex");
}

#[test]
fn parse_article_passes_fetch_error_through() {
    let site = link_site("ex", "https://ex.com");
    let r = site.parse_article("https://ex.com/a1".to_string(), Err(FetchError::HttpStatus(503)));
    assert_eq!(r, Err(FetchError::HttpStatus(503)));
    let ok = site
        .parse_article("https://ex.com/a1".to_string(), Ok("<h1>T</h1>".to_string()))
        .unwrap();
    assert_eq!(ok.title, "T");
}

#[test]
fn source_drops_failed_articles_only() {
    let site = link_site("ex", "https://ex.com");
    let links = Ok(vec![
        "https://ex.com/a1".to_string(),
        "https://ex.com/a2".to_string(),
        "https://ex.com/a3".to_string(),
    ]);
    let pages = vec![
        Ok("<h1>first</h1>".to_string()),
        Err(FetchError::Network),
        Ok("<h1>third</h1><time>noon</time>".to_string()),
    ];
    let articles = site.get_top_articles(links, pages).unwrap();
    assert_eq!(articles.len(), 2);
    assert_eq!(articles[0].title, "first");
    assert_eq!(articles[0].url, "https://ex.com/a1");
    assert_eq!(articles[1].title, "third");
    assert_eq!(articles[1].date, "noon");
    assert_eq!(articles[1].url, "https://ex.com/a3");
}

#[test]
fn source_with_all_articles_failed_is_empty_not_error() {
    let site = link_site("ex", "https://ex.com");
    let links = Ok(vec!["https://ex.com/a1".to_string()]);
    let r = site.get_top_articles(links, vec![Err(FetchError::HttpStatus(500))]);
    assert_eq!(r, Ok(Vec::new()));
}

#[test]
fn source_fails_when_index_fails() {
    let site = link_site("ex", "https://ex.com");
    let r = site.get_top_articles(Err(FetchError::HttpStatus(500)), Vec::new());
    assert_eq!(r, Err(FetchError::HttpStatus(500)));
}

#[test]
fn classify_response_by_status() {
    assert_eq!(classify_response(200, "b".to_string()), Ok("b".to_string()));
    assert_eq!(classify_response(299, "b".to_string()), Ok("b".to_string()));
    assert_eq!(classify_response(199, "b".to_string()), Err(FetchError::HttpStatus(199)));
    assert_eq!(classify_response(300, "b".to_string()), Err(FetchError::HttpStatus(300)));
    assert_eq!(classify_response(500, "b".to_string()), Err(FetchError::HttpStatus(500)));
}

#[test]
fn one_failed_source_is_left_out() {
    let espn = link_site("espn", "https://espn.com");
    let nba = link_site("nba", "https://nba.com");
    let failed = espn.get_top_articles(
        espn.get_top_links(classify_response(500, String::new())),
        Vec::new(),
    );
    let links = nba.get_top_links(Ok("<a class=\"story\" href=\"/n1\">n</a>".to_string()));
    let fine = nba.get_top_articles(links, vec![Ok("<h1>Game</h1>".to_string())]);
    let all = get_top_articles(&vec![failed, fine]).unwrap();
    assert_eq!(all.len(), 1);
    assert_eq!(all[0].title, "Game");
    assert_eq!(all[0].source, "nba");
    assert_eq!(all[0].url, "https://nba.com/n1");
}

#[test]
fn aggregate_keeps_registry_order() {
    let outcomes = vec![
        Ok(vec![article("a", "espn"), article("b", "espn")]),
        Ok(vec![article("c", "nba")]),
    ];
    let all = get_top_articles(&outcomes).unwrap();
    let titles: Vec<&str> = all.iter().map(|a| a.title.as_str()).collect();
    assert_eq!(titles, vec!["a", "b", "c"]);
}

#[test]
fn aggregate_fails_only_when_every_source_fails() {
    let outcomes: Vec<Result<Vec<Article>, FetchError>> =
        vec![Err(FetchError::HttpStatus(502)), Err(FetchError::Network)];
    assert_eq!(get_top_articles(&outcomes), Err(FetchError::HttpStatus(502)));
    assert_eq!(
        get_top_articles_from_origin(&outcomes, "nba"),
        Err(FetchError::HttpStatus(502))
    );
}

#[test]
fn aggregate_of_no_sources_is_empty() {
    let outcomes: Vec<Result<Vec<Article>, FetchError>> = Vec::new();
    assert_eq!(get_top_articles(&outcomes), Ok(Vec::new()));
}

#[test]
fn unknown_source_gives_empty_list() {
    let outcomes = vec![Ok(vec![article("a", "espn")]), Ok(vec![article("b", "nba")])];
    assert_eq!(get_top_articles_from_origin(&outcomes, "unknown-source"), Ok(Vec::new()));
}

#[test]
fn source_filter_equals_filtered_aggregate() {
    let outcomes = vec![
        Ok(vec![article("a", "espn"), article("b", "nba")]),
        Err(FetchError::Network),
        Ok(vec![article("c", "nba"), article("d", "espn")]),
    ];
    let all = get_top_articles(&outcomes).unwrap();
    let expected: Vec<Article> = all.into_iter().filter(|a| a.source == "nba").collect();
    let filtered = get_top_articles_from_origin(&outcomes, "nba").unwrap();
    assert_eq!(filtered, expected);
    assert_eq!(filtered.len(), 2);
    assert_eq!(filtered[0].title, "b");
    assert_eq!(filtered[1].title, "c");
}

#[test]
fn index_headers_add_default_agent() {
    let site = link_site("ex", "https://ex.com");
    assert_eq!(site.index_headers(), vec![("user-agent".to_string(), String::new())]);
    let custom = Site::new(
        "c".to_string(),
        "u".to_string(),
        "b".to_string(),
        "a",
        "h1",
        "h2",
        "p",
        "time",
        vec![("accept".to_string(), "text/html".to_string())],
    )
    .unwrap();
    assert_eq!(
        custom.index_headers(),
        vec![
            ("user-agent".to_string(), String::new()),
            ("accept".to_string(), "text/html".to_string())
        ]
    );
}

#[test]
fn index_headers_keep_source_agent() {
    let own = vec![("user-agent".to_string(), "bot/1".to_string())];
    let site = Site::new(
        "c".to_string(),
        "u".to_string(),
        "b".to_string(),
        "a",
        "h1",
        "h2",
        "p",
        "time",
        own.clone(),
    )
    .unwrap();
    assert_eq!(site.index_headers(), own);
    assert_eq!(article_headers(), vec![("user-agent".to_string(), String::new())]);
}

#[test]
fn site_new_names_first_invalid_selector() {
    let r = Site::new(
        "c".to_string(),
        "u".to_string(),
        "b".to_string(),
        "a",
        "h1[[",
        "h2",
        "p((",
        "time",
        Vec::new(),
    );
    assert_eq!(r.err(), Some(ConfigError::InvalidSelector("h1[[".to_string())));
}

#[test]
fn registry_lists_espn_then_nba() {
    let sites = get_all().unwrap();
    let info = list_sources(&sites);
    assert_eq!(info.len(), 2);
    assert_eq!(info[0].name, "espn");
    assert_eq!(info[0].url, "https://espn.com/nba");
    assert_eq!(info[0].base_url, "https://espn.com");
    assert_eq!(info[1].name, "nba");
    assert_eq!(info[1].url, "https://nba.com/news/category/top-stories");
    assert_eq!(info[1].base_url, "https://www.nba.com");
    assert_eq!(sites[1].index_headers(), vec![("user-agent".to_string(), String::new())]);
}
