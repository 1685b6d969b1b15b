//! The words in which an operation speaks with the relational store.
//!
//! An operation never touches the store. It hands its driver a `Request`,
//! the driver runs the matching statement and hands back what the store
//! said, and the operation decides what comes next. A request that fails
//! ends the operation, and the driver rolls back whatever transaction is
//! open; only an operation that asks for `Request::Commit` is committed.

use vstd::prelude::*;

use crate::http::articles::{ArticleFromQuery, ArticleFromQueryView};
use crate::http::error::{Error, ErrorView};

verus! {

/// A row of the `user` table.
#[derive(Debug)]
pub struct UserRow {
    pub user_id: u128,
    pub email: String,
    pub username: String,
    pub bio: String,
    pub image: Option<String>,
    pub password_hash: String,
}

pub struct UserRowView {
    pub user_id: u128,
    pub email: Seq<char>,
    pub username: Seq<char>,
    pub bio: Seq<char>,
    pub image: Option<Seq<char>>,
    pub password_hash: Seq<char>,
}

impl View for UserRow {
    type V = UserRowView;

    open spec fn view(&self) -> UserRowView {
        UserRowView {
            user_id: self.user_id,
            email: self.email@,
            username: self.username@,
            bio: self.bio@,
            image: self.image.deep_view(),
            password_hash: self.password_hash@,
        }
    }
}

impl DeepView for UserRow {
    type V = UserRowView;

    open spec fn deep_view(&self) -> UserRowView {
        self@
    }
}

/// Whose an article is: what a writer must know before it writes.
#[derive(Clone, Copy, Debug, PartialEq, Eq, Structural)]
pub struct ArticleMeta {
    pub article_id: u128,
    pub user_id: u128,
}

impl View for ArticleMeta {
    type V = ArticleMeta;

    open spec fn view(&self) -> ArticleMeta {
        *self
    }
}

impl DeepView for ArticleMeta {
    type V = ArticleMeta;

    open spec fn deep_view(&self) -> ArticleMeta {
        *self
    }
}

/// What an operation asks of the store.
#[allow(inconsistent_fields)]
#[derive(Debug)]
pub enum Request {
    /// Open a transaction. Every request until `Commit` runs inside it.
    Begin,
    /// Commit the open transaction.
    Commit,
    /// Add a user, with an empty bio and no image. Answered with `UserId`.
    InsertUser { username: String, email: String, password_hash: String },
    /// The user with this email. Answered with `User`.
    FindUserByEmail { email: String },
    /// The user with this id. Answered with `User`.
    FindUserById { user_id: u128 },
    /// The user with this name. Answered with `User`.
    FindUserByName { username: String },
    /// Replace each column for which a value is given and keep the others.
    /// Answered with `User`, the row as it stands afterwards.
    UpdateUser {
        user_id: u128,
        email: Option<String>,
        username: Option<String>,
        password_hash: Option<String>,
        bio: Option<String>,
        image: Option<String>,
    },
    /// Add the edge unless it exists already, which is no failure.
    /// Answered with `Done`.
    InsertFollow { following_user_id: u128, followed_user_id: u128 },
    /// Remove the edge if it exists. Answered with `Done`.
    DeleteFollow { following_user_id: u128, followed_user_id: u128 },
    /// Add an article. Answered with `Article`.
    InsertArticle {
        user_id: u128,
        slug: String,
        title: String,
        description: String,
        body: String,
        tag_list: Vec<String>,
    },
    /// The id and the owner of the article with this slug, whose row stays
    /// locked against other writers until the transaction ends. Answered
    /// with `ArticleMeta`.
    LockArticle { slug: String },
    /// Replace each column for which a value is given and keep the others.
    /// Answered with `Article`, the row as it stands afterwards and as
    /// `user_id`, its author, sees it.
    UpdateArticle {
        article_id: u128,
        user_id: u128,
        slug: Option<String>,
        title: Option<String>,
        description: Option<String>,
        body: Option<String>,
    },
    /// Delete the article with this slug if `user_id` owns it. Answered
    /// with `Deleted`.
    DeleteArticle { slug: String, user_id: u128 },
    /// Mark the article with this slug as a favourite of the user, unless
    /// it is one already. Answered with `ArticleId`.
    InsertFavorite { slug: String, user_id: u128 },
    /// Take the mark back if there is one. Answered with `ArticleId`.
    DeleteFavorite { slug: String, user_id: u128 },
    /// The article with this id as `user_id` sees it. Answered with
    /// `Article`.
    FindArticleById { user_id: u128, article_id: u128 },
    /// Delete the comment with this id under the article with this slug if
    /// `user_id` wrote it. Answered with `Deleted`.
    DeleteComment { comment_id: i64, slug: String, user_id: u128 },
}

#[allow(inconsistent_fields)]
pub enum RequestView {
    Begin,
    Commit,
    InsertUser { username: Seq<char>, email: Seq<char>, password_hash: Seq<char> },
    FindUserByEmail { email: Seq<char> },
    FindUserById { user_id: u128 },
    FindUserByName { username: Seq<char> },
    UpdateUser {
        user_id: u128,
        email: Option<Seq<char>>,
        username: Option<Seq<char>>,
        password_hash: Option<Seq<char>>,
        bio: Option<Seq<char>>,
        image: Option<Seq<char>>,
    },
    InsertFollow { following_user_id: u128, followed_user_id: u128 },
    DeleteFollow { following_user_id: u128, followed_user_id: u128 },
    InsertArticle {
        user_id: u128,
        slug: Seq<char>,
        title: Seq<char>,
        description: Seq<char>,
        body: Seq<char>,
        tag_list: Seq<Seq<char>>,
    },
    LockArticle { slug: Seq<char> },
    UpdateArticle {
        article_id: u128,
        user_id: u128,
        slug: Option<Seq<char>>,
        title: Option<Seq<char>>,
        description: Option<Seq<char>>,
        body: Option<Seq<char>>,
    },
    DeleteArticle { slug: Seq<char>, user_id: u128 },
    InsertFavorite { slug: Seq<char>, user_id: u128 },
    DeleteFavorite { slug: Seq<char>, user_id: u128 },
    FindArticleById { user_id: u128, article_id: u128 },
    DeleteComment { comment_id: i64, slug: Seq<char>, user_id: u128 },
}

impl View for Request {
    type V = RequestView;

    open spec fn view(&self) -> RequestView {
        match self {
            Request::Begin => RequestView::Begin,
            Request::Commit => RequestView::Commit,
            Request::InsertUser { username, email, password_hash } => RequestView::InsertUser {
                username: username@,
                email: email@,
                password_hash: password_hash@,
            },
            Request::FindUserByEmail { email } => RequestView::FindUserByEmail { email: email@ },
            Request::FindUserById { user_id } => RequestView::FindUserById { user_id: *user_id },
            Request::FindUserByName { username } => RequestView::FindUserByName {
                username: username@,
            },
            Request::UpdateUser {
                user_id,
                email,
                username,
                password_hash,
                bio,
                image,
            } => RequestView::UpdateUser {
                user_id: *user_id,
                email: email.deep_view(),
                username: username.deep_view(),
                password_hash: password_hash.deep_view(),
                bio: bio.deep_view(),
                image: image.deep_view(),
            },
            Request::InsertFollow {
                following_user_id,
                followed_user_id,
            } => RequestView::InsertFollow {
                following_user_id: *following_user_id,
                followed_user_id: *followed_user_id,
            },
            Request::DeleteFollow {
                following_user_id,
                followed_user_id,
            } => RequestView::DeleteFollow {
                following_user_id: *following_user_id,
                followed_user_id: *followed_user_id,
            },
            Request::InsertArticle {
                user_id,
                slug,
                title,
                description,
                body,
                tag_list,
            } => RequestView::InsertArticle {
                user_id: *user_id,
                slug: slug@,
                title: title@,
                description: description@,
                body: body@,
                tag_list: tag_list.deep_view(),
            },
            Request::LockArticle { slug } => RequestView::LockArticle { slug: slug@ },
            Request::UpdateArticle {
                article_id,
                user_id,
                slug,
                title,
                description,
                body,
            } => RequestView::UpdateArticle {
                article_id: *article_id,
                user_id: *user_id,
                slug: slug.deep_view(),
                title: title.deep_view(),
                description: description.deep_view(),
                body: body.deep_view(),
            },
            Request::DeleteArticle { slug, user_id } => RequestView::DeleteArticle {
                slug: slug@,
                user_id: *user_id,
            },
            Request::InsertFavorite { slug, user_id } => RequestView::InsertFavorite {
                slug: slug@,
                user_id: *user_id,
            },
            Request::DeleteFavorite { slug, user_id } => RequestView::DeleteFavorite {
                slug: slug@,
                user_id: *user_id,
            },
            Request::FindArticleById { user_id, article_id } => RequestView::FindArticleById {
                user_id: *user_id,
                article_id: *article_id,
            },
            Request::DeleteComment { comment_id, slug, user_id } => RequestView::DeleteComment {
                comment_id: *comment_id,
                slug: slug@,
                user_id: *user_id,
            },
        }
    }
}

/// What the store says to a request that did not fail.
#[derive(Debug)]
pub enum Reply {
    /// The statement ran; there is nothing to hand back.
    Done,
    /// The id of the user that was added.
    UserId(u128),
    /// The user that was asked for, if there is one.
    User(Option<UserRow>),
    /// The id and owner of the article that was asked for, if there is one.
    ArticleMeta(Option<ArticleMeta>),
    /// The article that was asked for, if there is one.
    Article(Option<ArticleFromQuery>),
    /// The id of the article with the slug that was named, if there is one.
    ArticleId(Option<u128>),
    /// Whether what was to be deleted existed before the statement ran, and
    /// whether the statement deleted it.
    Deleted { existed: bool, deleted: bool },
}

pub enum ReplyView {
    Done,
    UserId(u128),
    User(Option<UserRowView>),
    ArticleMeta(Option<ArticleMeta>),
    Article(Option<ArticleFromQueryView>),
    ArticleId(Option<u128>),
    Deleted { existed: bool, deleted: bool },
}

impl View for Reply {
    type V = ReplyView;

    open spec fn view(&self) -> ReplyView {
        match self {
            Reply::Done => ReplyView::Done,
            Reply::UserId(user_id) => ReplyView::UserId(*user_id),
            Reply::User(row) => ReplyView::User(
                match row {
                    Some(row) => Some(row@),
                    None => None,
                },
            ),
            Reply::ArticleMeta(meta) => ReplyView::ArticleMeta(*meta),
            Reply::Article(row) => ReplyView::Article(
                match row {
                    Some(row) => Some(row@),
                    None => None,
                },
            ),
            Reply::ArticleId(id) => ReplyView::ArticleId(*id),
            Reply::Deleted { existed, deleted } => ReplyView::Deleted {
                existed: *existed,
                deleted: *deleted,
            },
        }
    }
}

/// How a request ended: with the store's reply, or with the failure that
/// the driver made of the store's error.
pub type Event = Result<Reply, Error>;

/// An event as plain mathematical values.
pub open spec fn event_view(event: Event) -> Result<ReplyView, ErrorView> {
    match event {
        Ok(reply) => Ok(reply@),
        Err(e) => Err(e@),
    }
}

/// How an operation ended, as plain mathematical values.
pub open spec fn outcome_view<T: View>(outcome: Result<T, Error>) -> Result<T::V, ErrorView> {
    match outcome {
        Ok(value) => Ok(value@),
        Err(e) => Err(e@),
    }
}

/// What an operation wants next.
#[derive(Debug)]
pub enum Step<T> {
    /// Run this request and come back with how it ended.
    Ask(Request),
    /// The operation is over, with this outcome. On an error the driver
    /// rolls back the transaction, if one is open.
    Finish(Result<T, Error>),
}

pub enum StepView<T> {
    Ask(RequestView),
    Finish(Result<T, ErrorView>),
}

impl<T: View> View for Step<T> {
    type V = StepView<T::V>;

    open spec fn view(&self) -> StepView<T::V> {
        match self {
            Step::Ask(request) => StepView::Ask(request@),
            Step::Finish(outcome) => StepView::Finish(outcome_view(*outcome)),
        }
    }
}

/// The outcome of an operation that asked for a row which must exist.
pub open spec fn found_spec<T>(row: Option<T>) -> Result<T, Error> {
    match row {
        Some(row) => Ok(row),
        None => Err(Error::NotFound),
    }
}

/// The row, or `Error::NotFound` where the store had none.
pub fn found<T>(row: Option<T>) -> (r: Result<T, Error>)
    ensures
        r == found_spec(row),
{
    match row {
        Some(row) => Ok(row),
        None => Err(Error::NotFound),
    }
}

} // verus!
