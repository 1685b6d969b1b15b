use vstd::prelude::*;

use vstd::string::StringExecFns;

use crate::http::error::{field_error, one_field_error, Error, ErrorView};
use crate::http::profiles::{Profile, ProfileView};
use crate::http::types::Timestamptz;
use crate::store::{
    event_view, ArticleMeta, Event, Reply, ReplyView, Request, RequestView, Step, StepView,
};
use crate::text::{ascii_lower, push_char, sort, sorted, to_ascii_lower};

pub mod comments;
pub mod listing;

verus! {

broadcast use vstd::string::group_string_axioms;

#[derive(Debug)]
pub struct Article {
    pub slug: String,
    pub title: String,
    pub description: String,
    pub body: String,
    pub tag_list: Vec<String>,
    pub created_at: Timestamptz,
    // Note: the Postman collection of the API assumes that this is never null.
    // We prefer to leave it unset unless the row has actually be updated.
    pub updated_at: Timestamptz,
    pub favorited: bool,
    pub favorites_count: i64,
    pub author: Profile,
}

pub struct ArticleView {
    pub slug: Seq<char>,
    pub title: Seq<char>,
    pub description: Seq<char>,
    pub body: Seq<char>,
    pub tag_list: Seq<Seq<char>>,
    pub created_at: i128,
    pub updated_at: i128,
    pub favorited: bool,
    pub favorites_count: i64,
    pub author: ProfileView,
}

impl View for Article {
    type V = ArticleView;

    open spec fn view(&self) -> ArticleView {
        ArticleView {
            slug: self.slug@,
            title: self.title@,
            description: self.description@,
            body: self.body@,
            tag_list: self.tag_list.deep_view(),
            created_at: self.created_at@,
            updated_at: self.updated_at@,
            favorited: self.favorited,
            favorites_count: self.favorites_count,
            author: self.author@,
        }
    }
}

impl DeepView for Article {
    type V = ArticleView;

    open spec fn deep_view(&self) -> ArticleView {
        self@
    }
}

/// An article as the store hands it back: one flat row, with the author's
/// columns beside the article's own.
#[derive(Debug)]
pub struct ArticleFromQuery {
    pub slug: String,
    pub title: String,
    pub description: String,
    pub body: String,
    pub tag_list: Vec<String>,
    pub created_at: Timestamptz,
    pub updated_at: Timestamptz,
    pub favorited: bool,
    pub favorites_count: i64,
    pub author_username: String,
    pub author_bio: String,
    pub author_image: Option<String>,
    // Not `author_following`: that would sound like a flag showing if the author is
    // following the current user, and the intent is the other way round.
    pub following_author: bool,
}

pub struct ArticleFromQueryView {
    pub slug: Seq<char>,
    pub title: Seq<char>,
    pub description: Seq<char>,
    pub body: Seq<char>,
    pub tag_list: Seq<Seq<char>>,
    pub created_at: i128,
    pub updated_at: i128,
    pub favorited: bool,
    pub favorites_count: i64,
    pub author_username: Seq<char>,
    pub author_bio: Seq<char>,
    pub author_image: Option<Seq<char>>,
    pub following_author: bool,
}

impl View for ArticleFromQuery {
    type V = ArticleFromQueryView;

    open spec fn view(&self) -> ArticleFromQueryView {
        ArticleFromQueryView {
            slug: self.slug@,
            title: self.title@,
            description: self.description@,
            body: self.body@,
            tag_list: self.tag_list.deep_view(),
            created_at: self.created_at@,
            updated_at: self.updated_at@,
            favorited: self.favorited,
            favorites_count: self.favorites_count,
            author_username: self.author_username@,
            author_bio: self.author_bio@,
            author_image: self.author_image.deep_view(),
            following_author: self.following_author,
        }
    }
}

impl DeepView for ArticleFromQuery {
    type V = ArticleFromQueryView;

    open spec fn deep_view(&self) -> ArticleFromQueryView {
        self@
    }
}

/// The article that a row stands for: the article's own columns as they
/// are, and the author's columns gathered into a profile.
pub open spec fn article_of(row: ArticleFromQueryView) -> ArticleView {
    ArticleView {
        slug: row.slug,
        title: row.title,
        description: row.description,
        body: row.body,
        tag_list: row.tag_list,
        created_at: row.created_at,
        updated_at: row.updated_at,
        favorited: row.favorited,
        favorites_count: row.favorites_count,
        author: ProfileView {
            username: row.author_username,
            bio: row.author_bio,
            image: row.author_image,
            following: row.following_author,
        },
    }
}

impl ArticleFromQuery {
    pub fn into_article(self) -> (article: Article)
        ensures
            article@ == article_of(self@),
    {
        Article {
            slug: self.slug,
            title: self.title,
            description: self.description,
            body: self.body,
            tag_list: self.tag_list,
            created_at: self.created_at,
            updated_at: self.updated_at,
            favorited: self.favorited,
            favorites_count: self.favorites_count,
            author: Profile {
                username: self.author_username,
                bio: self.author_bio,
                image: self.author_image,
                following: self.following_author,
            },
        }
    }
}

/// What `char::is_alphanumeric` answers for a char.
pub uninterp spec fn unicode_alphanumeric(c: char) -> bool;

/// std's `char::is_alphanumeric`, which goes by the Unicode tables that std
/// carries. Nothing is claimed here about which chars it accepts.
#[verifier::external_body]
fn is_unicode_alphanumeric(c: char) -> (r: bool)
    ensures
        r == unicode_alphanumeric(c),
{
    c.is_alphanumeric()
}

/// A single or a double quotation mark.
pub open spec fn is_quote(c: char) -> bool {
    c == '\'' || c == '"'
}

/// An ASCII letter or digit.
pub open spec fn is_ascii_alphanumeric(c: char) -> bool {
    ('a' <= c && c <= 'z') || ('A' <= c && c <= 'Z') || ('0' <= c && c <= '9')
}

/// The chars that a slug's words are made of: quotation marks, so that
/// contractions and possessives stay in one piece, and letters and digits.
/// Within ASCII the letters and digits are decided here; beyond it, by the
/// Unicode tables of std.
pub open spec fn is_word_char(c: char) -> bool {
    is_quote(c) || if c <= '\x7f' {
        is_ascii_alphanumeric(c)
    } else {
        unicode_alphanumeric(c)
    }
}

/// The pieces that `s` falls into when it is cut at every char that is not
/// a word char. There is always at least one piece, and a piece is empty
/// where two cuts meet or a cut stands at either end.
pub open spec fn pieces(s: Seq<char>) -> Seq<Seq<char>>
    decreases s.len(),
{
    if s.len() == 0 {
        seq![Seq::<char>::empty()]
    } else {
        let before = pieces(s.drop_last());
        if is_word_char(s.last()) {
            before.drop_last().push(before.last().push(s.last()))
        } else {
            before.push(Seq::<char>::empty())
        }
    }
}

/// A piece without its quotation marks, ASCII capitals in lower case.
pub open spec fn clean(piece: Seq<char>) -> Seq<char>
    decreases piece.len(),
{
    if piece.len() == 0 {
        Seq::<char>::empty()
    } else if is_quote(piece.last()) {
        clean(piece.drop_last())
    } else {
        clean(piece.drop_last()).push(ascii_lower(piece.last()))
    }
}

/// The words of a slug: every piece that is not empty, cleaned. A piece of
/// quotation marks alone stays, as an empty word.
pub open spec fn slug_words(ps: Seq<Seq<char>>) -> Seq<Seq<char>>
    decreases ps.len(),
{
    if ps.len() == 0 {
        Seq::<Seq<char>>::empty()
    } else if ps.last().len() > 0 {
        slug_words(ps.drop_last()).push(clean(ps.last()))
    } else {
        slug_words(ps.drop_last())
    }
}

/// The words in order, with `sep` between each two neighbours.
pub open spec fn join(words: Seq<Seq<char>>, sep: char) -> Seq<char>
    decreases words.len(),
{
    if words.len() == 0 {
        Seq::<char>::empty()
    } else if words.len() == 1 {
        words[0]
    } else {
        join(words.drop_last(), sep).push(sep) + words.last()
    }
}

/// The slug of a title: its words, cleaned, with a hyphen between them.
pub open spec fn slug_of(title: Seq<char>) -> Seq<char> {
    join(slug_words(pieces(title)), '-')
}

fn is_word(c: char) -> (r: bool)
    ensures
        r == is_word_char(c),
{
    if c == '\'' || c == '"' {
        true
    } else if c <= '\x7f' {
        ('a' <= c && c <= 'z') || ('A' <= c && c <= 'Z') || ('0' <= c && c <= '9')
    } else {
        is_unicode_alphanumeric(c)
    }
}

/// Convert a title string to a slug for identifying an article.
///
/// E.g. `slugify("Doctests are the Bee's Knees") == "doctests-are-the-bees-knees"`
pub fn slugify(string: &str) -> (slug: String)
    ensures
        slug@ == slug_of(string@),
{
    let mut slug = String::new();
    // Whether the piece that the last char belongs to holds a char already.
    let mut in_word = false;
    // Whether any word has been started.
    let mut any = false;
    let ghost mut ps: Seq<Seq<char>> = pieces(Seq::<char>::empty());
    proof {
        assert(string@.take(0) =~= Seq::<char>::empty());
        assert(ps.drop_last() =~= Seq::<Seq<char>>::empty());
        assert(slug_words(ps.drop_last()) =~= Seq::<Seq<char>>::empty());
        assert(slug_words(ps) =~= Seq::<Seq<char>>::empty());
    }
    for c in it: string.chars()
        invariant
            it.seq() == string@,
            ps == pieces(string@.take(it.index() as int)),
            ps.len() > 0,
            in_word == (ps.last().len() > 0),
            any == (slug_words(ps).len() > 0),
            slug@ == join(slug_words(ps), '-'),
    {
        let ghost i = it.index() as int;
        let ghost before = ps;
        proof {
            assert(string@.take(i + 1).drop_last() =~= string@.take(i));
            assert(string@.take(i + 1).last() == c);
            ps = pieces(string@.take(i + 1));
        }
        if is_word(c) {
            let ghost words = slug_words(before.drop_last());
            let ghost piece = before.last().push(c);
            proof {
                assert(ps == before.drop_last().push(piece));
                assert(ps.drop_last() =~= before.drop_last());
                assert(ps.last() == piece);
                assert(piece.drop_last() =~= before.last());
                assert(slug_words(ps) == words.push(clean(piece)));
                assert(slug_words(ps).drop_last() =~= words);
            }
            if !in_word {
                assert(before.last() =~= Seq::<char>::empty());
                assert(clean(before.last()) =~= Seq::<char>::empty());
                if any {
                    push_char(&mut slug, '-');
                }
                in_word = true;
                any = true;
                assert(slug@ + clean(before.last()) =~= slug@);
            } else {
                proof {
                    assert(slug_words(before) == words.push(clean(before.last())));
                    assert(slug_words(before).drop_last() =~= words);
                    if words.len() > 0 {
                        assert(slug@ == join(words, '-').push('-') + clean(before.last()));
                    } else {
                        assert(slug@ == clean(before.last()));
                    }
                }
            }
            // Here `slug` ends with the cleaned piece as it stood before `c`.
            assert(slug@ == if words.len() > 0 {
                join(words, '-').push('-') + clean(before.last())
            } else {
                clean(before.last())
            });
            if c != '\'' && c != '"' {
                push_char(&mut slug, to_ascii_lower(c));
                assert(clean(piece) == clean(before.last()).push(ascii_lower(c)));
            } else {
                assert(clean(piece) == clean(before.last()));
            }
            assert(slug@ =~= if words.len() > 0 {
                join(words, '-').push('-') + clean(piece)
            } else {
                clean(piece)
            });
        } else {
            proof {
                assert(ps == before.push(Seq::<char>::empty()));
                assert(ps.drop_last() =~= before);
            }
            in_word = false;
        }
    }
    assert(string@.take(string@.len() as int) =~= string@);
    slug
}

/// The unique constraint on the slugs of the `article` table.
pub const ARTICLE_SLUG_KEY: &'static str = "article_slug_key";

/// The field that a refused slug is reported under.
pub const SLUG_FIELD: &'static str = "slug";

/// What the message about a slug that is taken begins with; the slug
/// follows.
pub const DUPLICATE_SLUG: &'static str = "duplicate article slug: ";

#[derive(Debug)]
pub struct CreateArticle {
    pub title: String,
    pub description: String,
    pub body: String,
    pub tag_list: Vec<String>,
}

pub struct CreateArticleView {
    pub title: Seq<char>,
    pub description: Seq<char>,
    pub body: Seq<char>,
    pub tag_list: Seq<Seq<char>>,
}

impl View for CreateArticle {
    type V = CreateArticleView;

    open spec fn view(&self) -> CreateArticleView {
        CreateArticleView {
            title: self.title@,
            description: self.description@,
            body: self.body@,
            tag_list: self.tag_list.deep_view(),
        }
    }
}

#[derive(Debug)]
pub struct UpdateArticle {
    pub title: Option<String>,
    pub description: Option<String>,
    pub body: Option<String>,
    // Interestingly, the API omits `tagList` from this route.
}

pub struct UpdateArticleView {
    pub title: Option<Seq<char>>,
    pub description: Option<Seq<char>>,
    pub body: Option<Seq<char>>,
}

impl View for UpdateArticle {
    type V = UpdateArticleView;

    open spec fn view(&self) -> UpdateArticleView {
        UpdateArticleView {
            title: self.title.deep_view(),
            description: self.description.deep_view(),
            body: self.body.deep_view(),
        }
    }
}

/// The error that answers a write whose slug another article has.
pub open spec fn duplicate_slug_error(slug: Seq<char>) -> ErrorView {
    one_field_error(SLUG_FIELD@, DUPLICATE_SLUG@ + slug)
}

fn duplicate_slug(slug: &str) -> (e: Error)
    ensures
        e@ == duplicate_slug_error(slug@),
{
    let mut message = String::from_str(DUPLICATE_SLUG);
    message.append(slug);
    field_error(SLUG_FIELD, message.as_str())
}

/// Where the publishing of a new article stands.
#[derive(Debug)]
pub enum PublishArticle {
    /// The insert was asked for, with this slug.
    Inserting { slug: String },
    /// The operation is over.
    Closed,
}

pub enum PublishArticleView {
    Inserting { slug: Seq<char> },
    Closed,
}

impl View for PublishArticle {
    type V = PublishArticleView;

    open spec fn view(&self) -> PublishArticleView {
        match self {
            PublishArticle::Inserting { slug } => PublishArticleView::Inserting { slug: slug@ },
            PublishArticle::Closed => PublishArticleView::Closed,
        }
    }
}

/// The state and the first step of publishing `article` as `author`: the
/// article is inserted under the slug of its title, its tags in order.
pub open spec fn publish_first(author: u128, article: CreateArticleView) -> (
    PublishArticleView,
    StepView<ArticleView>,
) {
    (
        PublishArticleView::Inserting { slug: slug_of(article.title) },
        StepView::Ask(
            RequestView::InsertArticle {
                user_id: author,
                slug: slug_of(article.title),
                title: article.title,
                description: article.description,
                body: article.body,
                tag_list: sorted(article.tag_list),
            },
        ),
    )
}

/// The next state and step of publishing an article. A slug that is taken
/// is reported as a validation error on the slug; the store's failure is
/// never passed on for it.
pub open spec fn publish_next(state: PublishArticleView, event: Result<ReplyView, ErrorView>) -> (
    PublishArticleView,
    StepView<ArticleView>,
) {
    match (state, event) {
        (PublishArticleView::Inserting { slug }, Ok(ReplyView::Article(Some(row)))) => (
            PublishArticleView::Closed,
            StepView::Finish(Ok(article_of(row))),
        ),
        (PublishArticleView::Inserting { slug }, Err(e)) => if e == (ErrorView::Database {
            constraint: Some(ARTICLE_SLUG_KEY@),
        }) {
            (PublishArticleView::Closed, StepView::Finish(Err(duplicate_slug_error(slug))))
        } else {
            (PublishArticleView::Closed, StepView::Finish(Err(e)))
        },
        _ => (PublishArticleView::Closed, StepView::Finish(Err(ErrorView::Internal))),
    }
}

// https://realworld-docs.netlify.app/docs/specs/backend-specs/endpoints#create-article
/// Starts the operation in which `author` publishes `article`.
pub fn create_article(author: u128, article: CreateArticle) -> (r: (PublishArticle, Step<Article>))
    ensures
        (r.0@, r.1@) == publish_first(author, article@),
{
    let slug = slugify(article.title.as_str());
    // Never specified unless you count just showing them sorted in the examples:
    // https://realworld-docs.netlify.app/docs/specs/backend-specs/api-response-format#single-article
    //
    // However, it is required by the Postman collection.
    let tag_list = sort(&article.tag_list);
    (
        PublishArticle::Inserting { slug: slug.clone() },
        Step::Ask(
            Request::InsertArticle {
                user_id: author,
                slug,
                title: article.title,
                description: article.description,
                body: article.body,
                tag_list,
            },
        ),
    )
}

impl PublishArticle {
    /// What the operation does when `event` comes in.
    pub fn step(self, event: Event) -> (r: (PublishArticle, Step<Article>))
        ensures
            (r.0@, r.1@) == publish_next(self@, event_view(event)),
    {
        match (self, event) {
            (PublishArticle::Inserting { slug }, Ok(Reply::Article(Some(row)))) => (
                PublishArticle::Closed,
                Step::Finish(Ok(row.into_article())),
            ),
            (PublishArticle::Inserting { slug }, Err(e)) => {
                if e.broke(ARTICLE_SLUG_KEY) {
                    (PublishArticle::Closed, Step::Finish(Err(duplicate_slug(slug.as_str()))))
                } else {
                    (PublishArticle::Closed, Step::Finish(Err(e)))
                }
            },
            _ => (PublishArticle::Closed, Step::Finish(Err(Error::Internal))),
        }
    }
}

/// Where the editing of an article stands.
#[derive(Debug)]
pub enum EditArticle {
    /// The transaction was asked for.
    Opening { editor: u128, slug: String, changes: UpdateArticle },
    /// The article's id and owner were asked for, and its row locked.
    Locking { editor: u128, changes: UpdateArticle },
    /// The update was asked for; `new_slug` is the slug that it sets, if
    /// it sets one.
    Writing { new_slug: Option<String> },
    /// The commit was asked for.
    Committing { article: Article },
    /// The operation is over.
    Closed,
}

pub enum EditArticleView {
    Opening { editor: u128, slug: Seq<char>, changes: UpdateArticleView },
    Locking { editor: u128, changes: UpdateArticleView },
    Writing { new_slug: Option<Seq<char>> },
    Committing { article: ArticleView },
    Closed,
}

impl View for EditArticle {
    type V = EditArticleView;

    open spec fn view(&self) -> EditArticleView {
        match self {
            EditArticle::Opening { editor, slug, changes } => EditArticleView::Opening {
                editor: *editor,
                slug: slug@,
                changes: changes@,
            },
            EditArticle::Locking { editor, changes } => EditArticleView::Locking {
                editor: *editor,
                changes: changes@,
            },
            EditArticle::Writing { new_slug } => EditArticleView::Writing {
                new_slug: new_slug.deep_view(),
            },
            EditArticle::Committing { article } => EditArticleView::Committing {
                article: article@,
            },
            EditArticle::Closed => EditArticleView::Closed,
        }
    }
}

/// The slug that an update sets: that of the new title, if it gives one.
pub open spec fn new_slug_of(changes: UpdateArticleView) -> Option<Seq<char>> {
    match changes.title {
        Some(title) => Some(slug_of(title)),
        None => None,
    }
}

/// The state and the first step of editing the article with `slug` as
/// `editor`.
pub open spec fn edit_first(editor: u128, slug: Seq<char>, changes: UpdateArticleView) -> (
    EditArticleView,
    StepView<ArticleView>,
) {
    (EditArticleView::Opening { editor, slug, changes }, StepView::Ask(RequestView::Begin))
}

/// The next state and step of editing an article.
///
/// Inside one transaction the article's row is locked and its owner read.
/// An article that does not exist ends the operation with `NotFound`, and
/// an editor who is not the owner with `Forbidden`: both before anything
/// is written. Only the owner's update is asked for; it replaces what the
/// changes give and keeps the rest. A slug that is taken is reported as a
/// validation error. The commit is asked for after the update went
/// through, and for nothing else.
pub open spec fn edit_next(state: EditArticleView, event: Result<ReplyView, ErrorView>) -> (
    EditArticleView,
    StepView<ArticleView>,
) {
    match (state, event) {
        (EditArticleView::Closed, _) => (
            EditArticleView::Closed,
            StepView::Finish(Err(ErrorView::Internal)),
        ),
        (EditArticleView::Writing { new_slug: Some(slug) }, Err(e)) => if e
            == (ErrorView::Database { constraint: Some(ARTICLE_SLUG_KEY@) }) {
            (EditArticleView::Closed, StepView::Finish(Err(duplicate_slug_error(slug))))
        } else {
            (EditArticleView::Closed, StepView::Finish(Err(e)))
        },
        (_, Err(e)) => (EditArticleView::Closed, StepView::Finish(Err(e))),
        (EditArticleView::Opening { editor, slug, changes }, Ok(ReplyView::Done)) => (
            EditArticleView::Locking { editor, changes },
            StepView::Ask(RequestView::LockArticle { slug }),
        ),
        (EditArticleView::Locking { editor, changes }, Ok(ReplyView::ArticleMeta(None))) => (
            EditArticleView::Closed,
            StepView::Finish(Err(ErrorView::NotFound)),
        ),
        (
            EditArticleView::Locking { editor, changes },
            Ok(ReplyView::ArticleMeta(Some(meta))),
        ) => if meta.user_id != editor {
            (EditArticleView::Closed, StepView::Finish(Err(ErrorView::Forbidden)))
        } else {
            (
                EditArticleView::Writing { new_slug: new_slug_of(changes) },
                StepView::Ask(
                    RequestView::UpdateArticle {
                        article_id: meta.article_id,
                        user_id: editor,
                        slug: new_slug_of(changes),
                        title: changes.title,
                        description: changes.description,
                        body: changes.body,
                    },
                ),
            )
        },
        (EditArticleView::Writing { new_slug }, Ok(ReplyView::Article(Some(row)))) => (
            EditArticleView::Committing { article: article_of(row) },
            StepView::Ask(RequestView::Commit),
        ),
        (EditArticleView::Committing { article }, Ok(ReplyView::Done)) => (
            EditArticleView::Closed,
            StepView::Finish(Ok(article)),
        ),
        _ => (EditArticleView::Closed, StepView::Finish(Err(ErrorView::Internal))),
    }
}

/// The update of an article is asked for only when the store has named the
/// editor as its owner, and for that article; a commit is asked for only
/// when the update went through. An operation that has finished stays
/// closed.
pub proof fn law_edit_writes_for_the_owner_only(
    state: EditArticleView,
    event: Result<ReplyView, ErrorView>,
)
    ensures
        edit_next(state, event).1 matches StepView::Ask(
            RequestView::UpdateArticle { article_id, user_id, .. },
        ) ==> state matches EditArticleView::Locking { editor, .. } && editor == user_id && event
            == Ok::<ReplyView, ErrorView>(
            ReplyView::ArticleMeta(Some(ArticleMeta { article_id, user_id })),
        ),
        edit_next(state, event).1 == StepView::<ArticleView>::Ask(RequestView::Commit) ==> state is Writing
            && event matches Ok(ReplyView::Article(Some(_))),
        edit_next(state, event).1 is Finish ==> edit_next(state, event).0 is Closed,
        state is Closed ==> edit_next(state, event).1 is Finish,
{
}

// https://realworld-docs.netlify.app/docs/specs/backend-specs/endpoints#update-article
/// Starts the operation in which `editor` changes the article with `slug`.
pub fn update_article(editor: u128, slug: String, changes: UpdateArticle) -> (r: (
    EditArticle,
    Step<Article>,
))
    ensures
        (r.0@, r.1@) == edit_first(editor, slug@, changes@),
{
    (EditArticle::Opening { editor, slug, changes }, Step::Ask(Request::Begin))
}

impl EditArticle {
    /// What the operation does when `event` comes in.
    pub fn step(self, event: Event) -> (r: (EditArticle, Step<Article>))
        ensures
            (r.0@, r.1@) == edit_next(self@, event_view(event)),
    {
        match (self, event) {
            (EditArticle::Closed, _) => (EditArticle::Closed, Step::Finish(Err(Error::Internal))),
            (EditArticle::Writing { new_slug: Some(slug) }, Err(e)) => {
                if e.broke(ARTICLE_SLUG_KEY) {
                    (EditArticle::Closed, Step::Finish(Err(duplicate_slug(slug.as_str()))))
                } else {
                    (EditArticle::Closed, Step::Finish(Err(e)))
                }
            },
            (_, Err(e)) => (EditArticle::Closed, Step::Finish(Err(e))),
            (EditArticle::Opening { editor, slug, changes }, Ok(Reply::Done)) => (
                EditArticle::Locking { editor, changes },
                Step::Ask(Request::LockArticle { slug }),
            ),
            (EditArticle::Locking { editor, changes }, Ok(Reply::ArticleMeta(None))) => (
                EditArticle::Closed,
                Step::Finish(Err(Error::NotFound)),
            ),
            (EditArticle::Locking { editor, changes }, Ok(Reply::ArticleMeta(Some(meta)))) => {
                if meta.user_id != editor {
                    (EditArticle::Closed, Step::Finish(Err(Error::Forbidden)))
                } else {
                    let (new_slug, kept) = match &changes.title {
                        Some(title) => {
                            let slug = slugify(title.as_str());
                            (Some(slug.clone()), Some(slug))
                        },
                        None => (None, None),
                    };
                    (
                        EditArticle::Writing { new_slug: kept },
                        Step::Ask(
                            Request::UpdateArticle {
                                article_id: meta.article_id,
                                user_id: editor,
                                slug: new_slug,
                                title: changes.title,
                                description: changes.description,
                                body: changes.body,
                            },
                        ),
                    )
                }
            },
            (EditArticle::Writing { new_slug }, Ok(Reply::Article(Some(row)))) => (
                EditArticle::Committing { article: row.into_article() },
                Step::Ask(Request::Commit),
            ),
            (EditArticle::Committing { article }, Ok(Reply::Done)) => (
                EditArticle::Closed,
                Step::Finish(Ok(article)),
            ),
            _ => (EditArticle::Closed, Step::Finish(Err(Error::Internal))),
        }
    }
}

/// How a guarded delete ended: the store deletes a row only for its owner,
/// and tells whether the row existed before the statement and whether the
/// statement deleted it.
pub open spec fn deletion_outcome(existed: bool, deleted: bool) -> Result<(), ErrorView> {
    if deleted {
        Ok(())
    } else if existed {
        Err(ErrorView::Forbidden)
    } else {
        Err(ErrorView::NotFound)
    }
}

/// Where a guarded delete stands: that of an article, or of a comment.
#[derive(Clone, Copy, Debug, PartialEq, Eq, Structural)]
pub enum Deletion {
    /// The delete was asked for.
    Deleting,
    /// The operation is over.
    Closed,
}

impl View for Deletion {
    type V = Deletion;

    open spec fn view(&self) -> Deletion {
        *self
    }
}

/// The state and the first step of deleting the article with `slug` as
/// `editor`.
pub open spec fn delete_article_first(editor: u128, slug: Seq<char>) -> (Deletion, StepView<()>) {
    (Deletion::Deleting, StepView::Ask(RequestView::DeleteArticle { slug, user_id: editor }))
}

/// The next state and step of a guarded delete: success if the row was
/// deleted, `Forbidden` if it exists and was not, which is the case of
/// another owner, and `NotFound` if it never existed.
pub open spec fn deletion_next(state: Deletion, event: Result<ReplyView, ErrorView>) -> (
    Deletion,
    StepView<()>,
) {
    match (state, event) {
        (Deletion::Deleting, Ok(ReplyView::Deleted { existed, deleted })) => (
            Deletion::Closed,
            StepView::Finish(deletion_outcome(existed, deleted)),
        ),
        (Deletion::Deleting, Err(e)) => (Deletion::Closed, StepView::Finish(Err(e))),
        _ => (Deletion::Closed, StepView::Finish(Err(ErrorView::Internal))),
    }
}

// https://realworld-docs.netlify.app/docs/specs/backend-specs/endpoints#delete-article
/// Starts the operation in which `editor` deletes the article with `slug`.
pub fn delete_article(editor: u128, slug: String) -> (r: (Deletion, Step<()>))
    ensures
        (r.0@, r.1@) == delete_article_first(editor, slug@),
{
    (Deletion::Deleting, Step::Ask(Request::DeleteArticle { slug, user_id: editor }))
}

impl Deletion {
    /// What the operation does when `event` comes in.
    pub fn step(self, event: Event) -> (r: (Deletion, Step<()>))
        ensures
            (r.0@, r.1@) == deletion_next(self@, event_view(event)),
    {
        match (self, event) {
            (Deletion::Deleting, Ok(Reply::Deleted { existed, deleted })) => {
                if deleted {
                    // Successfully deleted!
                    (Deletion::Closed, Step::Finish(Ok(())))
                } else if existed {
                    // We found it, but the user was not its owner.
                    (Deletion::Closed, Step::Finish(Err(Error::Forbidden)))
                } else {
                    // We didn't find anything by that name.
                    (Deletion::Closed, Step::Finish(Err(Error::NotFound)))
                }
            },
            (Deletion::Deleting, Err(e)) => (Deletion::Closed, Step::Finish(Err(e))),
            _ => (Deletion::Closed, Step::Finish(Err(Error::Internal))),
        }
    }
}

/// Where the marking of an article as a favourite, or the taking back of
/// the mark, stands.
#[derive(Clone, Copy, Debug, PartialEq, Eq, Structural)]
pub enum FavoriteArticle {
    /// The mark was asked for.
    Marking { user_id: u128 },
    /// The article was asked for, as the user now sees it.
    Loading,
    /// The operation is over.
    Closed,
}

impl View for FavoriteArticle {
    type V = FavoriteArticle;

    open spec fn view(&self) -> FavoriteArticle {
        *self
    }
}

/// The state and the first step of marking the article with `slug` as a
/// favourite of `user_id` (`favorite`), or of taking the mark back.
pub open spec fn favorite_first(user_id: u128, slug: Seq<char>, favorite: bool) -> (
    FavoriteArticle,
    StepView<ArticleView>,
) {
    (
        FavoriteArticle::Marking { user_id },
        StepView::Ask(
            if favorite {
                RequestView::InsertFavorite { slug, user_id }
            } else {
                RequestView::DeleteFavorite { slug, user_id }
            },
        ),
    )
}

/// The next state and step of a favourite or unfavourite. Whether the mark
/// was there before is never asked; only an article that does not exist
/// ends the operation with `NotFound`.
pub open spec fn favorite_next(state: FavoriteArticle, event: Result<ReplyView, ErrorView>) -> (
    FavoriteArticle,
    StepView<ArticleView>,
) {
    match (state, event) {
        (FavoriteArticle::Closed, _) => (
            FavoriteArticle::Closed,
            StepView::Finish(Err(ErrorView::Internal)),
        ),
        (_, Err(e)) => (FavoriteArticle::Closed, StepView::Finish(Err(e))),
        (FavoriteArticle::Marking { user_id }, Ok(ReplyView::ArticleId(None))) => (
            FavoriteArticle::Closed,
            StepView::Finish(Err(ErrorView::NotFound)),
        ),
        (FavoriteArticle::Marking { user_id }, Ok(ReplyView::ArticleId(Some(article_id)))) => (
            FavoriteArticle::Loading,
            StepView::Ask(RequestView::FindArticleById { user_id, article_id }),
        ),
        (FavoriteArticle::Loading, Ok(ReplyView::Article(None))) => (
            FavoriteArticle::Closed,
            StepView::Finish(Err(ErrorView::NotFound)),
        ),
        (FavoriteArticle::Loading, Ok(ReplyView::Article(Some(row)))) => (
            FavoriteArticle::Closed,
            StepView::Finish(Ok(article_of(row))),
        ),
        _ => (FavoriteArticle::Closed, StepView::Finish(Err(ErrorView::Internal))),
    }
}

// https://realworld-docs.netlify.app/docs/specs/backend-specs/endpoints#favorite-article
/// Starts the operation in which `user_id` marks the article with `slug`
/// as a favourite.
pub fn favorite_article(user_id: u128, slug: String) -> (r: (FavoriteArticle, Step<Article>))
    ensures
        (r.0@, r.1@) == favorite_first(user_id, slug@, true),
{
    (FavoriteArticle::Marking { user_id }, Step::Ask(Request::InsertFavorite { slug, user_id }))
}

// https://realworld-docs.netlify.app/docs/specs/backend-specs/endpoints#unfavorite-article
/// Starts the operation in which `user_id` takes the mark back from the
/// article with `slug`. Nothing says what to do if there is no mark: then
/// nothing is done, and the article is handed back as it is.
pub fn unfavorite_article(user_id: u128, slug: String) -> (r: (FavoriteArticle, Step<Article>))
    ensures
        (r.0@, r.1@) == favorite_first(user_id, slug@, false),
{
    (FavoriteArticle::Marking { user_id }, Step::Ask(Request::DeleteFavorite { slug, user_id }))
}

impl FavoriteArticle {
    /// What the operation does when `event` comes in.
    pub fn step(self, event: Event) -> (r: (FavoriteArticle, Step<Article>))
        ensures
            (r.0@, r.1@) == favorite_next(self@, event_view(event)),
    {
        match (self, event) {
            (FavoriteArticle::Closed, _) => (
                FavoriteArticle::Closed,
                Step::Finish(Err(Error::Internal)),
            ),
            (_, Err(e)) => (FavoriteArticle::Closed, Step::Finish(Err(e))),
            (FavoriteArticle::Marking { user_id }, Ok(Reply::ArticleId(None))) => (
                FavoriteArticle::Closed,
                Step::Finish(Err(Error::NotFound)),
            ),
            (FavoriteArticle::Marking { user_id }, Ok(Reply::ArticleId(Some(article_id)))) => (
                FavoriteArticle::Loading,
                article_by_id(user_id, article_id),
            ),
            (FavoriteArticle::Loading, Ok(Reply::Article(row))) => (
                FavoriteArticle::Closed,
                Step::Finish(article_found(row)),
            ),
            _ => (FavoriteArticle::Closed, Step::Finish(Err(Error::Internal))),
        }
    }
}

/// The outcome of asking for an article that must exist.
pub open spec fn article_found_spec(row: Option<ArticleFromQuery>) -> Result<ArticleView, ErrorView> {
    match row {
        Some(row) => Ok(article_of(row@)),
        None => Err(ErrorView::NotFound),
    }
}

/// The article that the store handed back, or `Error::NotFound` where it
/// had none.
pub fn article_found(row: Option<ArticleFromQuery>) -> (r: Result<Article, Error>)
    ensures
        crate::store::outcome_view(r) == article_found_spec(row),
{
    match row {
        Some(row) => Ok(row.into_article()),
        None => Err(Error::NotFound),
    }
}

// This is used in a few different places so it makes sense to extract into its own function.
/// The request for the article with this id as `user_id` sees it.
pub fn article_by_id(user_id: u128, article_id: u128) -> (step: Step<Article>)
    ensures
        step@ == StepView::<ArticleView>::Ask(RequestView::FindArticleById { user_id, article_id }),
{
    Step::Ask(Request::FindArticleById { user_id, article_id })
}

} // verus!
