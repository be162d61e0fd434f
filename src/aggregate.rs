//! The cross-source aggregate: every source's outcome, gathered in registry
//! order, with sources that failed left out, and the same aggregate
//! restricted to one source.
use vstd::prelude::*;

use crate::article::{Article, ArticleView};
use crate::site::FetchError;

verus! {

/// The outcome of scraping one source: its articles, or why its index could
/// not be fetched.
pub type SourceOutcome = Result<Vec<Article>, FetchError>;

/// The value of an outcome, with each article as its view.
pub open spec fn outcome_view(o: Result<Vec<Article>, FetchError>) -> Result<Seq<ArticleView>, FetchError> {
    match o {
        Ok(a) => Ok(a.deep_view()),
        Err(e) => Err(e),
    }
}

/// The articles of the sources that succeeded, concatenated in the order of
/// `outcomes`.
pub open spec fn gathered(outcomes: Seq<SourceOutcome>) -> Seq<ArticleView>
    decreases outcomes.len(),
{
    if outcomes.len() == 0 {
        Seq::empty()
    } else {
        let rest = gathered(outcomes.drop_last());
        match outcomes.last() {
            Ok(a) => rest + a.deep_view(),
            Err(_) => rest,
        }
    }
}

/// The articles of `articles` whose source is `source`, in order.
pub open spec fn of_source(articles: Seq<ArticleView>, source: Seq<char>) -> Seq<ArticleView>
    decreases articles.len(),
{
    if articles.len() == 0 {
        Seq::empty()
    } else {
        let rest = of_source(articles.drop_last(), source);
        if articles.last().source == source {
            rest.push(articles.last())
        } else {
            rest
        }
    }
}

/// Each succeeded source's articles whose source is `source`, concatenated in
/// the order of `outcomes`.
pub open spec fn gathered_of_source(outcomes: Seq<SourceOutcome>, source: Seq<char>) -> Seq<
    ArticleView,
>
    decreases outcomes.len(),
{
    if outcomes.len() == 0 {
        Seq::empty()
    } else {
        let rest = gathered_of_source(outcomes.drop_last(), source);
        match outcomes.last() {
            Ok(a) => rest + of_source(a.deep_view(), source),
            Err(_) => rest,
        }
    }
}

/// Whether there is at least one source and every source failed.
pub open spec fn all_failed(outcomes: Seq<SourceOutcome>) -> bool {
    &&& outcomes.len() > 0
    &&& forall|i: int| 0 <= i < outcomes.len() ==> (#[trigger] outcomes[i]).is_err()
}

/// The aggregate over all sources: the first source's error when every
/// source failed, else the articles of those that succeeded.
pub open spec fn aggregate(outcomes: Seq<SourceOutcome>) -> Result<Seq<ArticleView>, FetchError> {
    if all_failed(outcomes) {
        Err(outcomes[0]->Err_0)
    } else {
        Ok(gathered(outcomes))
    }
}

/// The aggregate restricted to `source`: the same failure rule, and each
/// succeeded source's articles of that source.
pub open spec fn aggregate_of_source(outcomes: Seq<SourceOutcome>, source: Seq<char>) -> Result<
    Seq<ArticleView>,
    FetchError,
> {
    if all_failed(outcomes) {
        Err(outcomes[0]->Err_0)
    } else {
        Ok(gathered_of_source(outcomes, source))
    }
}

/// Appends a copy of each article of `src` to `out`.
fn append_copies(out: &mut Vec<Article>, src: &Vec<Article>)
    ensures
        final(out).deep_view() == old(out).deep_view() + src.deep_view(),
{
    let ghost start = out.deep_view();
    let mut j: usize = 0;
    while j < src.len()
        invariant
            j <= src.len(),
            out.deep_view() == start + src.deep_view().take(j as int),
        decreases src.len() - j,
    {
        let ghost prev = out.deep_view();
        out.push(src[j].copy());
        proof {
            assert(src.deep_view()[j as int] == src@[j as int]@);
            assert(out.deep_view() =~= prev.push(src.deep_view()[j as int]));
            assert(src.deep_view().take(j + 1) =~= src.deep_view().take(j as int).push(
                src.deep_view()[j as int],
            ));
            assert(out.deep_view() =~= start + src.deep_view().take(j + 1));
        }
        j = j + 1;
    }
    assert(src.deep_view().take(j as int) =~= src.deep_view());
}

/// Gathers the outcomes of all sources, given in registry order. A source
/// whose index fetch failed is left out; the call fails, with the first
/// source's error, only when every source failed. An empty registry gives an
/// empty list.
pub fn get_top_articles(outcomes: &Vec<SourceOutcome>) -> (r: Result<Vec<Article>, FetchError>)
    ensures
        outcome_view(r) == aggregate(outcomes@),
{
    let mut all: Vec<Article> = Vec::new();
    let mut any_ok = false;
    let mut i: usize = 0;
    while i < outcomes.len()
        invariant
            i <= outcomes.len(),
            all.deep_view() == gathered(outcomes@.take(i as int)),
            any_ok == exists|k: int| 0 <= k < i && (#[trigger] outcomes@[k]).is_ok(),
        decreases outcomes.len() - i,
    {
        proof {
            assert(outcomes@.take(i + 1).drop_last() =~= outcomes@.take(i as int));
        }
        match &outcomes[i] {
            Ok(articles) => {
                append_copies(&mut all, articles);
                any_ok = true;
            },
            Err(_) => {},
        }
        i = i + 1;
    }
    assert(outcomes@.take(i as int) =~= outcomes@);
    if !any_ok && outcomes.len() > 0 {
        match &outcomes[0] {
            Err(e) => Err(*e),
            Ok(_) => Err(FetchError::Network),
        }
    } else {
        Ok(all)
    }
}

proof fn lemma_of_source_concat(a: Seq<ArticleView>, b: Seq<ArticleView>, source: Seq<char>)
    ensures
        of_source(a + b, source) == of_source(a, source) + of_source(b, source),
    decreases b.len(),
{
    if b.len() == 0 {
        assert(a + b =~= a);
        assert(of_source(a, source) + of_source(b, source) =~= of_source(a, source));
    } else {
        lemma_of_source_concat(a, b.drop_last(), source);
        assert((a + b).drop_last() =~= a + b.drop_last());
        assert((a + b).last() == b.last());
        if b.last().source == source {
            assert(of_source(a, source) + of_source(b, source) =~= (of_source(a, source)
                + of_source(b.drop_last(), source)).push(b.last()));
        } else {
            assert(of_source(a, source) + of_source(b, source) =~= of_source(a, source)
                + of_source(b.drop_last(), source));
        }
    }
}

proof fn lemma_gathered_of_source(outcomes: Seq<SourceOutcome>, source: Seq<char>)
    ensures
        gathered_of_source(outcomes, source) == of_source(gathered(outcomes), source),
    decreases outcomes.len(),
{
    if outcomes.len() > 0 {
        lemma_gathered_of_source(outcomes.drop_last(), source);
        if let Ok(a) = outcomes.last() {
            lemma_of_source_concat(gathered(outcomes.drop_last()), a.deep_view(), source);
        }
    } else {
        assert(of_source(Seq::empty(), source) == Seq::<ArticleView>::empty());
    }
}

/// Restricting the aggregate to one source is a pure projection of the full
/// aggregate: it fails exactly when the full aggregate fails, with the same
/// error, and otherwise holds the full aggregate's articles of that source,
/// in the same order. Filtering never changes what any source contributed.
pub proof fn lemma_source_filter_is_projection(outcomes: Seq<SourceOutcome>, source: Seq<char>)
    ensures
        aggregate_of_source(outcomes, source) == match aggregate(outcomes) {
            Ok(all) => Ok(of_source(all, source)),
            Err(e) => Err(e),
        },
{
    lemma_gathered_of_source(outcomes, source);
}

/// The aggregate restricted to the source named `source`: the same failure
/// rule as [`get_top_articles`], and otherwise each succeeded source's
/// articles of that source, in order. An unknown name gives an empty list.
pub fn get_top_articles_from_origin(outcomes: &Vec<SourceOutcome>, source: &str) -> (r: Result<
    Vec<Article>,
    FetchError,
>)
    ensures
        outcome_view(r) == aggregate_of_source(outcomes@, source@),
{
    let all = match get_top_articles(outcomes) {
        Ok(all) => all,
        Err(e) => return Err(e),
    };
    let ghost av = all.deep_view();
    let wanted = String::from_str(source);
    let mut kept: Vec<Article> = Vec::new();
    let mut j: usize = 0;
    while j < all.len()
        invariant
            j <= all.len(),
            av == all.deep_view(),
            wanted@ == source@,
            kept.deep_view() == of_source(av.take(j as int), source@),
        decreases all.len() - j,
    {
        proof {
            assert(av.take(j + 1).drop_last() =~= av.take(j as int));
        }
        assert(av[j as int] == all@[j as int]@);
        if all[j].source == wanted {
            kept.push(all[j].copy());
            proof {
                assert(kept.deep_view() =~= of_source(av.take(j + 1), source@));
            }
        }
        j = j + 1;
    }
    proof {
        assert(av.take(j as int) =~= av);
        lemma_gathered_of_source(outcomes@, source@);
    }
    Ok(kept)
}

} // verus!
