//! The record produced for one scraped article.
use vstd::prelude::*;

verus! {

/// One article as scraped from a source: the raw text of each field (empty
/// where the page had no matching node), its absolute address, and the name of
/// the source it came from.
#[derive(Clone, Debug, PartialEq, Eq)]
pub struct Article {
    pub title: String,
    pub subtitle: String,
    pub author: String,
    pub date: String,
    pub url: String,
    pub source: String,
}

/// The mathematical value of an [`Article`]: each field as a sequence of
/// characters.
pub struct ArticleView {
    pub title: Seq<char>,
    pub subtitle: Seq<char>,
    pub author: Seq<char>,
    pub date: Seq<char>,
    pub url: Seq<char>,
    pub source: Seq<char>,
}

impl View for Article {
    type V = ArticleView;

    open spec fn view(&self) -> ArticleView {
        ArticleView {
            title: self.title@,
            subtitle: self.subtitle@,
            author: self.author@,
            date: self.date@,
            url: self.url@,
            source: self.source@,
        }
    }
}

impl DeepView for Article {
    type V = ArticleView;

    open spec fn deep_view(&self) -> ArticleView {
        self@
    }
}

impl Article {
    /// A field-by-field copy, known to be equal to `self`.
    pub fn copy(&self) -> (r: Article)
        ensures
            r == *self,
    {
        Article {
            title: self.title.clone(),
            subtitle: self.subtitle.clone(),
            author: self.author.clone(),
            date: self.date.clone(),
            url: self.url.clone(),
            source: self.source.clone(),
        }
    }
}

/// The article that the sample page in the tests describes: title "title 1",
/// subtitle "subtitle 1", author "lucas", date "2:00PM", with empty address and
/// source.
pub fn article_expected() -> (r: Article)
    ensures
        r.title@ == "title 1"@,
        r.subtitle@ == "subtitle 1"@,
        r.author@ == "lucas"@,
        r.date@ == "2:00PM"@,
        r.url@ == Seq::<char>::empty(),
        r.source@ == Seq::<char>::empty(),
{
    Article {
        title: String::from_str("title 1"),
        subtitle: String::from_str("subtitle 1"),
        author: String::from_str("lucas"),
        date: String::from_str("2:00PM"),
        url: String::new(),
        source: String::new(),
    }
}

} // verus!
