use vstd::prelude::*;

use crate::http::articles::Deletion;
use crate::http::error::{Error, ErrorView};
use crate::http::profiles::{Profile, ProfileView};
use crate::http::types::Timestamptz;
use crate::store::{outcome_view, Request, RequestView, Step, StepView};

verus! {

#[derive(Debug)]
pub struct Comment {
    pub id: i64,
    pub created_at: Timestamptz,
    pub updated_at: Timestamptz,
    pub body: String,
    pub author: Profile,
}

pub struct CommentView {
    pub id: i64,
    pub created_at: i128,
    pub updated_at: i128,
    pub body: Seq<char>,
    pub author: ProfileView,
}

impl View for Comment {
    type V = CommentView;

    open spec fn view(&self) -> CommentView {
        CommentView {
            id: self.id,
            created_at: self.created_at@,
            updated_at: self.updated_at@,
            body: self.body@,
            author: self.author@,
        }
    }
}

impl DeepView for Comment {
    type V = CommentView;

    open spec fn deep_view(&self) -> CommentView {
        self@
    }
}

/// A comment as the store hands it back: one flat row, with the author's
/// columns beside the comment's own.
#[derive(Debug)]
pub struct CommentFromQuery {
    pub comment_id: i64,
    pub created_at: Timestamptz,
    pub updated_at: Timestamptz,
    pub body: String,
    pub author_username: String,
    pub author_bio: String,
    pub author_image: Option<String>,
    pub following_author: bool,
}

pub struct CommentFromQueryView {
    pub comment_id: i64,
    pub created_at: i128,
    pub updated_at: i128,
    pub body: Seq<char>,
    pub author_username: Seq<char>,
    pub author_bio: Seq<char>,
    pub author_image: Option<Seq<char>>,
    pub following_author: bool,
}

impl View for CommentFromQuery {
    type V = CommentFromQueryView;

    open spec fn view(&self) -> CommentFromQueryView {
        CommentFromQueryView {
            comment_id: self.comment_id,
            created_at: self.created_at@,
            updated_at: self.updated_at@,
            body: self.body@,
            author_username: self.author_username@,
            author_bio: self.author_bio@,
            author_image: self.author_image.deep_view(),
            following_author: self.following_author,
        }
    }
}

impl DeepView for CommentFromQuery {
    type V = CommentFromQueryView;

    open spec fn deep_view(&self) -> CommentFromQueryView {
        self@
    }
}

/// The comment that a row stands for: the comment's own columns as they
/// are, and the author's columns gathered into a profile.
pub open spec fn comment_of(row: CommentFromQueryView) -> CommentView {
    CommentView {
        id: row.comment_id,
        created_at: row.created_at,
        updated_at: row.updated_at,
        body: row.body,
        author: ProfileView {
            username: row.author_username,
            bio: row.author_bio,
            image: row.author_image,
            following: row.following_author,
        },
    }
}

impl CommentFromQuery {
    pub fn into_comment(self) -> (comment: Comment)
        ensures
            comment@ == comment_of(self@),
    {
        Comment {
            id: self.comment_id,
            created_at: self.created_at,
            updated_at: self.updated_at,
            body: self.body,
            author: Profile {
                username: self.author_username,
                bio: self.author_bio,
                image: self.author_image,
                following: self.following_author,
            },
        }
    }
}

/// The outcome of adding a comment: the store hands the new comment back
/// unless there is no article with the slug that was named.
pub open spec fn comment_added_spec(row: Option<CommentFromQuery>) -> Result<
    CommentView,
    ErrorView,
> {
    match row {
        Some(row) => Ok(comment_of(row@)),
        None => Err(ErrorView::NotFound),
    }
}

// https://realworld-docs.netlify.app/docs/specs/backend-specs/endpoints#add-comments-to-an-article
/// The comment that was added, or `Error::NotFound` where the store added
/// none: then the article's slug was not found.
pub fn comment_added(row: Option<CommentFromQuery>) -> (r: Result<Comment, Error>)
    ensures
        outcome_view(r) == comment_added_spec(row),
{
    match row {
        Some(row) => Ok(row.into_comment()),
        None => Err(Error::NotFound),
    }
}

#[derive(Debug)]
pub struct MultipleCommentsBody {
    pub comments: Vec<Comment>,
}

impl MultipleCommentsBody {
    // https://realworld-docs.netlify.app/docs/specs/backend-specs/endpoints#get-comments-from-an-article
    /// The body for the comments under an article: the comment of each
    /// row, in the order of the rows.
    pub fn new(rows: Vec<CommentFromQuery>) -> (body: MultipleCommentsBody)
        ensures
            body.comments.deep_view() == rows.deep_view().map_values(
                |row: CommentFromQueryView| comment_of(row),
            ),
    {
        let ghost given = rows.deep_view();
        let mut rows = rows;
        let mut reversed: Vec<Comment> = Vec::new();
        // The rows are taken from the end, so the comments come out last first.
        while rows.len() > 0
            invariant
                rows.len() <= given.len(),
                rows.deep_view() == given.take(rows.len() as int),
                reversed.len() == given.len() - rows.len(),
                forall|i: int|
                    0 <= i < reversed.len() ==> (#[trigger] reversed@[i])@ == comment_of(
                        given[given.len() - 1 - i],
                    ),
            decreases rows.len(),
        {
            let ghost before = rows.deep_view();
            let row = rows.pop().unwrap();
            proof {
                assert(row@ == before[before.len() - 1]);
                assert(rows.deep_view() =~= given.take(rows.len() as int));
            }
            reversed.push(row.into_comment());
        }
        let mut comments: Vec<Comment> = Vec::new();
        while reversed.len() > 0
            invariant
                reversed.len() + comments.len() == given.len(),
                forall|i: int|
                    0 <= i < reversed.len() ==> (#[trigger] reversed@[i])@ == comment_of(
                        given[given.len() - 1 - i],
                    ),
                forall|i: int|
                    0 <= i < comments.len() ==> (#[trigger] comments@[i])@ == comment_of(given[i]),
            decreases reversed.len(),
        {
            let comment = reversed.pop().unwrap();
            comments.push(comment);
        }
        proof {
            assert(comments.deep_view() =~= given.map_values(
                |row: CommentFromQueryView| comment_of(row),
            ));
        }
        MultipleCommentsBody { comments }
    }
}

/// The state and the first step of deleting the comment `comment_id` under
/// the article with `slug` as `user_id`.
pub open spec fn delete_comment_first(user_id: u128, slug: Seq<char>, comment_id: i64) -> (
    Deletion,
    StepView<()>,
) {
    (Deletion::Deleting, StepView::Ask(RequestView::DeleteComment { comment_id, slug, user_id }))
}

// https://realworld-docs.netlify.app/docs/specs/backend-specs/endpoints#delete-comment
/// Starts the operation in which `user_id` deletes the comment
/// `comment_id` under the article with `slug`.
pub fn delete_comment(user_id: u128, slug: String, comment_id: i64) -> (r: (Deletion, Step<()>))
    ensures
        (r.0@, r.1@) == delete_comment_first(user_id, slug@, comment_id),
{
    (Deletion::Deleting, Step::Ask(Request::DeleteComment { comment_id, slug, user_id }))
}

} // verus!
