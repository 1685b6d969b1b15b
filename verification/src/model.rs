//! A model of the store, and what the operations achieve when they run
//! against it.
//!
//! Nothing here is executed. The model says what a store that keeps its
//! own rules answers to the statements on users, on follow edges and on the
//! ownership of articles; the laws below then hold of every state of such
//! a store. What the store answers to the other statements is left open.

use vstd::prelude::*;

use crate::http::articles::{
    delete_article_first, deletion_next, edit_first, edit_next, ArticleView, Deletion,
    EditArticleView, UpdateArticleView,
};
use crate::http::error::{one_field_error, ErrorView};
use crate::http::profiles::{
    follow_first, follow_next, profile_of, FollowUserView, ProfileView, USER_CANNOT_FOLLOW_SELF,
};
use crate::http::users::{
    create_user_first, hashed, user_next, NewUserView, UserOpView, UserView, EMAIL_FIELD,
    EMAIL_TAKEN, USERNAME_FIELD, USERNAME_TAKEN, USER_EMAIL_KEY, USER_USERNAME_KEY,
};
use crate::store::{ArticleMeta, ReplyView, RequestView, StepView, UserRowView};

verus! {

broadcast use vstd::string::group_string_axioms;

/// What the store keeps of an article, as far as ownership goes.
pub struct ArticleRecord {
    pub article_id: u128,
    pub user_id: u128,
    pub slug: Seq<char>,
}

/// A state of the store.
pub struct Db {
    /// The rows of the `user` table.
    pub users: Seq<UserRowView>,
    /// The rows of the `follow` table: who follows whom.
    pub follows: Seq<(u128, u128)>,
    /// The rows of the `article` table.
    pub articles: Seq<ArticleRecord>,
    /// What the store answers to the statements that this model leaves
    /// open.
    pub rest: spec_fn(RequestView) -> Result<ReplyView, ErrorView>,
}

/// How often `a` occurs in `s`.
pub open spec fn occurrences<A>(s: Seq<A>, a: A) -> nat
    decreases s.len(),
{
    if s.len() == 0 {
        0
    } else {
        occurrences(s.drop_last(), a) + if s.last() == a {
            1nat
        } else {
            0nat
        }
    }
}

/// `s` without any `a`.
pub open spec fn without<A>(s: Seq<A>, a: A) -> Seq<A>
    decreases s.len(),
{
    if s.len() == 0 {
        s
    } else if s.last() == a {
        without(s.drop_last(), a)
    } else {
        without(s.drop_last(), a).push(s.last())
    }
}

impl Db {
    /// The rules that the store keeps by its own constraints: no two users
    /// share a name, no edge is there twice, no user follows themselves,
    /// and no two articles share a slug.
    pub open spec fn wf(self) -> bool {
        &&& forall|i: int, j: int|
            0 <= i < j < self.users.len() ==> (#[trigger] self.users[i]).username
                != (#[trigger] self.users[j]).username
        &&& forall|edge: (u128, u128)| #[trigger] occurrences(self.follows, edge) <= 1
        &&& forall|i: int| 0 <= i < self.follows.len() ==> (#[trigger] self.follows[i]).0 != self.follows[i].1
        &&& forall|i: int, j: int|
            0 <= i < j < self.articles.len() ==> (#[trigger] self.articles[i]).slug
                != (#[trigger] self.articles[j]).slug
    }

    /// Whether some user has this name.
    pub open spec fn has_user_named(self, username: Seq<char>) -> bool {
        exists|i: int| 0 <= i < self.users.len() && (#[trigger] self.users[i]).username == username
    }

    /// Whether some user has this email.
    pub open spec fn has_user_with_email(self, email: Seq<char>) -> bool {
        exists|i: int| 0 <= i < self.users.len() && (#[trigger] self.users[i]).email == email
    }

    /// The user with this name.
    pub open spec fn user_named(self, username: Seq<char>) -> Option<UserRowView> {
        if self.has_user_named(username) {
            Some(
                self.users[choose|i: int|
                    0 <= i < self.users.len() && (#[trigger] self.users[i]).username == username],
            )
        } else {
            None
        }
    }

    /// Whether some article has this slug.
    pub open spec fn has_article(self, slug: Seq<char>) -> bool {
        exists|i: int| 0 <= i < self.articles.len() && (#[trigger] self.articles[i]).slug == slug
    }

    /// The article with this slug.
    pub open spec fn article_with(self, slug: Seq<char>) -> Option<ArticleRecord> {
        if self.has_article(slug) {
            Some(
                self.articles[choose|i: int|
                    0 <= i < self.articles.len() && (#[trigger] self.articles[i]).slug == slug],
            )
        } else {
            None
        }
    }

    /// Whether no user has this id.
    pub open spec fn is_unused(self, user_id: u128) -> bool {
        forall|i: int| 0 <= i < self.users.len() ==> (#[trigger] self.users[i]).user_id != user_id
    }

    /// An id that no user has.
    pub open spec fn fresh_user_id(self) -> u128 {
        choose|user_id: u128| self.is_unused(user_id)
    }
}

/// The store's report that a statement broke the constraint `name`.
pub open spec fn violation(name: Seq<char>) -> ErrorView {
    ErrorView::Database { constraint: Some(name) }
}

/// The state of the store after a statement, and how the statement ended.
pub open spec fn answer(db: Db, request: RequestView) -> (Db, Result<ReplyView, ErrorView>) {
    match request {
        RequestView::Begin => (db, Ok(ReplyView::Done)),
        RequestView::Commit => (db, Ok(ReplyView::Done)),
        RequestView::FindUserByName { username } => (db, Ok(ReplyView::User(db.user_named(username)))),
        RequestView::InsertUser { username, email, password_hash } => {
            if db.has_user_named(username) {
                (db, Err(violation(USER_USERNAME_KEY@)))
            } else if db.has_user_with_email(email) {
                (db, Err(violation(USER_EMAIL_KEY@)))
            } else {
                let user_id = db.fresh_user_id();
                let row = UserRowView {
                    user_id,
                    email,
                    username,
                    bio: Seq::empty(),
                    image: None,
                    password_hash,
                };
                (Db { users: db.users.push(row), ..db }, Ok(ReplyView::UserId(user_id)))
            }
        },
        RequestView::InsertFollow { following_user_id, followed_user_id } => {
            let edge = (following_user_id, followed_user_id);
            if following_user_id == followed_user_id {
                (db, Err(violation(USER_CANNOT_FOLLOW_SELF@)))
            } else if occurrences(db.follows, edge) > 0 {
                // The edge is there: the statement does nothing.
                (db, Ok(ReplyView::Done))
            } else {
                (Db { follows: db.follows.push(edge), ..db }, Ok(ReplyView::Done))
            }
        },
        RequestView::DeleteFollow { following_user_id, followed_user_id } => {
            let edge = (following_user_id, followed_user_id);
            (Db { follows: without(db.follows, edge), ..db }, Ok(ReplyView::Done))
        },
        RequestView::LockArticle { slug } => (
            db,
            Ok(
                ReplyView::ArticleMeta(
                    match db.article_with(slug) {
                        Some(article) => Some(
                            ArticleMeta { article_id: article.article_id, user_id: article.user_id },
                        ),
                        None => None,
                    },
                ),
            ),
        ),
        RequestView::DeleteArticle { slug, user_id } => match db.article_with(slug) {
            Some(article) => if article.user_id == user_id {
                (
                    Db { articles: without(db.articles, article), ..db },
                    Ok(ReplyView::Deleted { existed: true, deleted: true }),
                )
            } else {
                (db, Ok(ReplyView::Deleted { existed: true, deleted: false }))
            },
            None => (db, Ok(ReplyView::Deleted { existed: false, deleted: false })),
        },
        _ => (db, (db.rest)(request)),
    }
}

/// Where an operation that is at `step` in `state` leaves the store, and
/// how it ends, when each of its requests is answered by the store. `fuel`
/// bounds the number of requests.
pub open spec fn run<S, T>(
    next: spec_fn(S, Result<ReplyView, ErrorView>) -> (S, StepView<T>),
    db: Db,
    state: S,
    step: StepView<T>,
    fuel: nat,
) -> (Db, Result<T, ErrorView>)
    decreases fuel,
{
    match step {
        StepView::Finish(outcome) => (db, outcome),
        StepView::Ask(request) => if fuel == 0 {
            (db, Err(ErrorView::Internal))
        } else {
            let (after, event) = answer(db, request);
            let (state, step) = next(state, event);
            run(next, after, state, step, (fuel - 1) as nat)
        },
    }
}

/// What an operation leaves behind: the store as the operation made it if
/// it succeeded, and the store as it was if it failed, since a failed
/// operation is rolled back.
pub open spec fn settle<T>(before: Db, ran: (Db, Result<T, ErrorView>)) -> (Db, Result<T, ErrorView>) {
    if ran.1 is Ok {
        ran
    } else {
        (before, ran.1)
    }
}

/// A follow (`follow`) or an unfollow of the user named `username` by
/// `actor`, run against the store.
pub open spec fn follow_in(db: Db, actor: u128, username: Seq<char>, follow: bool) -> (
    Db,
    Result<ProfileView, ErrorView>,
) {
    let first = follow_first(actor, username, follow);
    settle(
        db,
        run(
            |state: FollowUserView, event: Result<ReplyView, ErrorView>| follow_next(state, event),
            db,
            first.0,
            first.1,
            4,
        ),
    )
}

/// The editing of the article with `slug` by `editor`, run against the
/// store.
pub open spec fn edit_in(db: Db, editor: u128, slug: Seq<char>, changes: UpdateArticleView) -> (
    Db,
    Result<ArticleView, ErrorView>,
) {
    let first = edit_first(editor, slug, changes);
    settle(
        db,
        run(
            |state: EditArticleView, event: Result<ReplyView, ErrorView>| edit_next(state, event),
            db,
            first.0,
            first.1,
            4,
        ),
    )
}

/// The deleting of the article with `slug` by `editor`, run against the
/// store.
pub open spec fn delete_article_in(db: Db, editor: u128, slug: Seq<char>) -> (
    Db,
    Result<(), ErrorView>,
) {
    let first = delete_article_first(editor, slug);
    settle(
        db,
        run(
            |state: Deletion, event: Result<ReplyView, ErrorView>| deletion_next(state, event),
            db,
            first.0,
            first.1,
            1,
        ),
    )
}

/// The registration of `new_user`, run against the store at the time
/// `now`.
pub open spec fn create_user_in(db: Db, new_user: NewUserView, salt: Seq<char>, key: Seq<u8>, now: i64) -> (
    Db,
    Result<UserView, ErrorView>,
) {
    let first = create_user_first(new_user, salt);
    settle(
        db,
        run(
            |state: UserOpView, event: Result<ReplyView, ErrorView>| user_next(state, event, key, now),
            db,
            first.0,
            first.1,
            1,
        ),
    )
}

proof fn lemma_absent_is_untouched<A>(s: Seq<A>, a: A)
    requires
        occurrences(s, a) == 0,
    ensures
        without(s, a) == s,
    decreases s.len(),
{
    if s.len() > 0 {
        lemma_absent_is_untouched(s.drop_last(), a);
        assert(s.drop_last().push(s.last()) =~= s);
    }
}

proof fn lemma_without_removes<A>(s: Seq<A>, a: A, b: A)
    ensures
        occurrences(without(s, a), a) == 0,
        b != a ==> occurrences(without(s, a), b) == occurrences(s, b),
    decreases s.len(),
{
    if s.len() > 0 {
        lemma_without_removes(s.drop_last(), a, b);
        if s.last() != a {
            let kept = without(s.drop_last(), a);
            assert(kept.push(s.last()).drop_last() =~= kept);
            assert(kept.push(s.last()).last() == s.last());
        }
    }
}

/// Following a user a second time changes nothing: both calls succeed, the
/// second leaves the store as the first left it, and the edge is there
/// exactly once. This holds whether or not the edge was there before.
pub proof fn law_follow_twice_leaves_one_edge(db: Db, actor: u128, username: Seq<char>)
    requires
        db.wf(),
        db.user_named(username) is Some,
        db.user_named(username)->0.user_id != actor,
    ensures
        ({
            let user = db.user_named(username)->0;
            let once = follow_in(db, actor, username, true);
            let twice = follow_in(once.0, actor, username, true);
            &&& once.1 == Ok::<ProfileView, ErrorView>(profile_of(user, true))
            &&& twice.1 == once.1
            &&& twice.0 == once.0
            &&& occurrences(twice.0.follows, (actor, user.user_id)) == 1
            &&& once.0.wf()
        }),
{
    let user = db.user_named(username)->0;
    let edge = (actor, user.user_id);
    let next = |state: FollowUserView, event: Result<ReplyView, ErrorView>|
        follow_next(state, event);
    let first = follow_first(actor, username, true);
    reveal_with_fuel(run, 5);
    let once = follow_in(db, actor, username, true);
    assert(once.1 == Ok::<ProfileView, ErrorView>(profile_of(user, true)));
    assert(once.0 == answer(db, RequestView::InsertFollow {
        following_user_id: actor,
        followed_user_id: user.user_id,
    }).0);
    assert(occurrences(once.0.follows, edge) == 1) by {
        if occurrences(db.follows, edge) == 0 {
            assert(db.follows.push(edge).drop_last() =~= db.follows);
        }
    }
    assert(once.0.wf()) by {
        if occurrences(db.follows, edge) == 0 {
            let grown = db.follows.push(edge);
            assert(grown.drop_last() =~= db.follows);
            assert forall|other: (u128, u128)| #[trigger] occurrences(grown, other) <= 1 by {
                assert(occurrences(db.follows, other) <= 1);
            }
        }
    }
    assert(once.0.user_named(username) == db.user_named(username));
    let twice = follow_in(once.0, actor, username, true);
    assert(twice.0 == once.0);
}

/// Unfollowing a user who is not followed succeeds and changes nothing;
/// and after any unfollow the edge is not there.
pub proof fn law_unfollow_is_idempotent(db: Db, actor: u128, username: Seq<char>)
    requires
        db.user_named(username) is Some,
    ensures
        ({
            let user = db.user_named(username)->0;
            let after = follow_in(db, actor, username, false);
            &&& after.1 == Ok::<ProfileView, ErrorView>(profile_of(user, false))
            &&& occurrences(after.0.follows, (actor, user.user_id)) == 0
            &&& occurrences(db.follows, (actor, user.user_id)) == 0 ==> after.0 == db
        }),
{
    let user = db.user_named(username)->0;
    let edge = (actor, user.user_id);
    reveal_with_fuel(run, 5);
    lemma_without_removes(db.follows, edge, edge);
    if occurrences(db.follows, edge) == 0 {
        lemma_absent_is_untouched(db.follows, edge);
    }
}

/// Nobody can follow themselves: the attempt ends with `Forbidden` and
/// writes nothing, whatever the store holds.
pub proof fn law_follow_self_is_forbidden(db: Db, actor: u128, username: Seq<char>)
    requires
        db.user_named(username) is Some,
        db.user_named(username)->0.user_id == actor,
    ensures
        follow_in(db, actor, username, true) == (db, Err::<ProfileView, ErrorView>(ErrorView::Forbidden)),
{
    reveal_with_fuel(run, 5);
}

/// Following a user who does not exist ends with `NotFound` and writes
/// nothing; so does unfollowing one.
pub proof fn law_follow_unknown_user(db: Db, actor: u128, username: Seq<char>, follow: bool)
    requires
        db.user_named(username) is None,
    ensures
        follow_in(db, actor, username, follow) == (db, Err::<ProfileView, ErrorView>(ErrorView::NotFound)),
{
    reveal_with_fuel(run, 5);
}

/// Whoever is not the owner of an article cannot edit it: the attempt ends
/// with `Forbidden`, whatever the changes are, and writes nothing.
pub proof fn law_edit_by_other_is_forbidden(
    db: Db,
    editor: u128,
    slug: Seq<char>,
    changes: UpdateArticleView,
)
    requires
        db.article_with(slug) is Some,
        db.article_with(slug)->0.user_id != editor,
    ensures
        edit_in(db, editor, slug, changes) == (db, Err::<ArticleView, ErrorView>(ErrorView::Forbidden)),
{
    reveal_with_fuel(run, 5);
}

/// Whoever is not the owner of an article cannot delete it: the attempt
/// ends with `Forbidden` and the article stays.
pub proof fn law_delete_by_other_is_forbidden(db: Db, editor: u128, slug: Seq<char>)
    requires
        db.article_with(slug) is Some,
        db.article_with(slug)->0.user_id != editor,
    ensures
        delete_article_in(db, editor, slug) == (db, Err::<(), ErrorView>(ErrorView::Forbidden)),
{
    reveal_with_fuel(run, 2);
}

/// Editing or deleting an article that does not exist ends with
/// `NotFound`.
pub proof fn law_missing_article_is_not_found(
    db: Db,
    editor: u128,
    slug: Seq<char>,
    changes: UpdateArticleView,
)
    requires
        db.article_with(slug) is None,
    ensures
        edit_in(db, editor, slug, changes) == (db, Err::<ArticleView, ErrorView>(ErrorView::NotFound)),
        delete_article_in(db, editor, slug) == (db, Err::<(), ErrorView>(ErrorView::NotFound)),
{
    reveal_with_fuel(run, 5);
}

/// The owner's delete removes the article.
pub proof fn law_delete_by_owner(db: Db, owner: u128, slug: Seq<char>)
    requires
        db.wf(),
        db.article_with(slug) is Some,
        db.article_with(slug)->0.user_id == owner,
    ensures
        ({
            let after = delete_article_in(db, owner, slug);
            &&& after.1 == Ok::<(), ErrorView>(())
            &&& occurrences(after.0.articles, db.article_with(slug)->0) == 0
        }),
{
    reveal_with_fuel(run, 2);
    lemma_without_removes(db.articles, db.article_with(slug)->0, db.article_with(slug)->0);
}

/// Registering under a name that is taken ends with a validation error
/// that names the `username` field, and under a free name with an email
/// that is taken with one that names the `email` field. Neither adds a
/// user, and neither is passed on as a failure of the store.
pub proof fn law_taken_name_or_email_is_a_validation_error(
    db: Db,
    new_user: NewUserView,
    salt: Seq<char>,
    key: Seq<u8>,
    now: i64,
)
    requires
        hashed(new_user.password, salt) is Ok,
        db.has_user_named(new_user.username) || db.has_user_with_email(new_user.email),
    ensures
        create_user_in(db, new_user, salt, key, now) == (
            db,
            Err::<UserView, ErrorView>(
                if db.has_user_named(new_user.username) {
                    one_field_error(USERNAME_FIELD@, USERNAME_TAKEN@)
                } else {
                    one_field_error(EMAIL_FIELD@, EMAIL_TAKEN@)
                },
            ),
        ),
{
    reveal_with_fuel(run, 2);
    reveal_strlit("user_username_key");
    reveal_strlit("user_email_key");
    assert(USER_USERNAME_KEY@.len() != USER_EMAIL_KEY@.len());
}

} // verus!
