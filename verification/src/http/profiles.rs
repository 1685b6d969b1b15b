use vstd::prelude::*;

use crate::http::error::{Error, ErrorView};
use crate::store::{
    event_view, Event, Reply, ReplyView, Request, RequestView, Step, StepView, UserRow, UserRowView,
};

verus! {

broadcast use vstd::string::group_string_axioms;

/// The check constraint of the `follow` table that keeps a user from
/// following themselves.
pub const USER_CANNOT_FOLLOW_SELF: &'static str = "user_cannot_follow_self";

// https://realworld-docs.netlify.app/docs/specs/backend-specs/api-response-format#profile
#[derive(Debug)]
pub struct Profile {
    pub username: String,
    pub bio: String,
    pub image: Option<String>,
    pub following: bool,
}

pub struct ProfileView {
    pub username: Seq<char>,
    pub bio: Seq<char>,
    pub image: Option<Seq<char>>,
    pub following: bool,
}

impl View for Profile {
    type V = ProfileView;

    open spec fn view(&self) -> ProfileView {
        ProfileView {
            username: self.username@,
            bio: self.bio@,
            image: self.image.deep_view(),
            following: self.following,
        }
    }
}

impl DeepView for Profile {
    type V = ProfileView;

    open spec fn deep_view(&self) -> ProfileView {
        self@
    }
}

/// Where a follow or an unfollow stands. Both look the user up by name and
/// then write the edge, inside one transaction, so that the two see the
/// same store.
#[derive(Debug)]
pub enum FollowUser {
    /// The transaction was asked for.
    Opening { actor: u128, username: String, follow: bool },
    /// The user to follow was asked for.
    Resolving { actor: u128, follow: bool },
    /// The edge is being written.
    Writing { user: UserRow, follow: bool },
    /// The commit was asked for.
    Committing { user: UserRow, follow: bool },
    /// The operation is over.
    Closed,
}

pub enum FollowUserView {
    Opening { actor: u128, username: Seq<char>, follow: bool },
    Resolving { actor: u128, follow: bool },
    Writing { user: UserRowView, follow: bool },
    Committing { user: UserRowView, follow: bool },
    Closed,
}

impl View for FollowUser {
    type V = FollowUserView;

    open spec fn view(&self) -> FollowUserView {
        match self {
            FollowUser::Opening { actor, username, follow } => FollowUserView::Opening {
                actor: *actor,
                username: username@,
                follow: *follow,
            },
            FollowUser::Resolving { actor, follow } => FollowUserView::Resolving {
                actor: *actor,
                follow: *follow,
            },
            FollowUser::Writing { user, follow } => FollowUserView::Writing {
                user: user@,
                follow: *follow,
            },
            FollowUser::Committing { user, follow } => FollowUserView::Committing {
                user: user@,
                follow: *follow,
            },
            FollowUser::Closed => FollowUserView::Closed,
        }
    }
}

/// The profile of `user` as someone sees it who follows them, or does not.
pub open spec fn profile_of(user: UserRowView, following: bool) -> ProfileView {
    ProfileView { username: user.username, bio: user.bio, image: user.image, following }
}

/// The statement that writes the edge from `actor` to `target`: it adds
/// the edge for a follow and removes it for an unfollow.
pub open spec fn edge_request(actor: u128, target: u128, follow: bool) -> RequestView {
    if follow {
        RequestView::InsertFollow { following_user_id: actor, followed_user_id: target }
    } else {
        RequestView::DeleteFollow { following_user_id: actor, followed_user_id: target }
    }
}

/// The next state and step of a follow or unfollow that is in `state` when
/// `event` comes in.
///
/// A user cannot follow themselves: that is refused as soon as the user is
/// known, before anything is written, and once more if the store reports
/// its own check. Whether the edge was there before is never asked: adding
/// one that exists and removing one that does not are both a success. A
/// failure at any point ends the operation without a commit.
pub open spec fn follow_next(state: FollowUserView, event: Result<ReplyView, ErrorView>) -> (
    FollowUserView,
    StepView<ProfileView>,
) {
    match (state, event) {
        (FollowUserView::Closed, _) => (
            FollowUserView::Closed,
            StepView::Finish(Err(ErrorView::Internal)),
        ),
        (FollowUserView::Writing { user, follow }, Err(e)) => if follow && e
            == (ErrorView::Database { constraint: Some(USER_CANNOT_FOLLOW_SELF@) }) {
            (FollowUserView::Closed, StepView::Finish(Err(ErrorView::Forbidden)))
        } else {
            (FollowUserView::Closed, StepView::Finish(Err(e)))
        },
        (_, Err(e)) => (FollowUserView::Closed, StepView::Finish(Err(e))),
        (FollowUserView::Opening { actor, username, follow }, Ok(ReplyView::Done)) => (
            FollowUserView::Resolving { actor, follow },
            StepView::Ask(RequestView::FindUserByName { username }),
        ),
        (FollowUserView::Resolving { actor, follow }, Ok(ReplyView::User(None))) => (
            FollowUserView::Closed,
            StepView::Finish(Err(ErrorView::NotFound)),
        ),
        (FollowUserView::Resolving { actor, follow }, Ok(ReplyView::User(Some(user)))) => if follow
            && user.user_id == actor {
            (FollowUserView::Closed, StepView::Finish(Err(ErrorView::Forbidden)))
        } else {
            (
                FollowUserView::Writing { user, follow },
                StepView::Ask(edge_request(actor, user.user_id, follow)),
            )
        },
        (FollowUserView::Writing { user, follow }, Ok(ReplyView::Done)) => (
            FollowUserView::Committing { user, follow },
            StepView::Ask(RequestView::Commit),
        ),
        (FollowUserView::Committing { user, follow }, Ok(ReplyView::Done)) => (
            FollowUserView::Closed,
            StepView::Finish(Ok(profile_of(user, follow))),
        ),
        _ => (FollowUserView::Closed, StepView::Finish(Err(ErrorView::Internal))),
    }
}

/// The state and the first step of a follow (`follow`) or an unfollow of
/// the user named `username` by `actor`.
pub open spec fn follow_first(actor: u128, username: Seq<char>, follow: bool) -> (
    FollowUserView,
    StepView<ProfileView>,
) {
    (FollowUserView::Opening { actor, username, follow }, StepView::Ask(RequestView::Begin))
}

/// No step of a follow asks for an edge from a user to themselves, and a
/// commit is asked for only when the write of the edge went through. An
/// operation that has finished stays closed.
pub proof fn law_follow_writes_no_self_edge(state: FollowUserView, event: Result<ReplyView, ErrorView>)
    ensures
        follow_next(state, event).1 matches StepView::Ask(
            RequestView::InsertFollow { following_user_id, followed_user_id },
        ) ==> following_user_id != followed_user_id,
        follow_next(state, event).1 == StepView::<ProfileView>::Ask(RequestView::Commit) ==> state is Writing
            && event == Ok::<ReplyView, ErrorView>(ReplyView::Done),
        follow_next(state, event).1 is Finish ==> follow_next(state, event).0 is Closed,
        state is Closed ==> follow_next(state, event).1 is Finish,
{
}

impl FollowUser {
    fn start(actor: u128, username: String, follow: bool) -> (r: (FollowUser, Step<Profile>))
        ensures
            (r.0@, r.1@) == follow_first(actor, username@, follow),
    {
        (FollowUser::Opening { actor, username, follow }, Step::Ask(Request::Begin))
    }

    /// What the operation does when `event` comes in.
    pub fn step(self, event: Event) -> (r: (FollowUser, Step<Profile>))
        ensures
            (r.0@, r.1@) == follow_next(self@, event_view(event)),
    {
        match (self, event) {
            (FollowUser::Closed, _) => (FollowUser::Closed, Step::Finish(Err(Error::Internal))),
            (FollowUser::Writing { user, follow }, Err(e)) => {
                if follow && e.broke(USER_CANNOT_FOLLOW_SELF) {
                    (FollowUser::Closed, Step::Finish(Err(Error::Forbidden)))
                } else {
                    (FollowUser::Closed, Step::Finish(Err(e)))
                }
            },
            (_, Err(e)) => (FollowUser::Closed, Step::Finish(Err(e))),
            (FollowUser::Opening { actor, username, follow }, Ok(Reply::Done)) => (
                FollowUser::Resolving { actor, follow },
                Step::Ask(Request::FindUserByName { username }),
            ),
            (FollowUser::Resolving { actor, follow }, Ok(Reply::User(None))) => (
                FollowUser::Closed,
                Step::Finish(Err(Error::NotFound)),
            ),
            (FollowUser::Resolving { actor, follow }, Ok(Reply::User(Some(user)))) => {
                if follow && user.user_id == actor {
                    (FollowUser::Closed, Step::Finish(Err(Error::Forbidden)))
                } else {
                    let request = if follow {
                        Request::InsertFollow {
                            following_user_id: actor,
                            followed_user_id: user.user_id,
                        }
                    } else {
                        Request::DeleteFollow {
                            following_user_id: actor,
                            followed_user_id: user.user_id,
                        }
                    };
                    (FollowUser::Writing { user, follow }, Step::Ask(request))
                }
            },
            (FollowUser::Writing { user, follow }, Ok(Reply::Done)) => (
                FollowUser::Committing { user, follow },
                Step::Ask(Request::Commit),
            ),
            (FollowUser::Committing { user, follow }, Ok(Reply::Done)) => (
                FollowUser::Closed,
                Step::Finish(
                    Ok(
                        Profile {
                            username: user.username,
                            bio: user.bio,
                            image: user.image,
                            // We just made sure of this.
                            following: follow,
                        },
                    ),
                ),
            ),
            _ => (FollowUser::Closed, Step::Finish(Err(Error::Internal))),
        }
    }
}

// https://realworld-docs.netlify.app/docs/specs/backend-specs/endpoints#follow-user
/// Starts the operation in which `actor` follows the user named `username`.
pub fn follow_user(actor: u128, username: String) -> (r: (FollowUser, Step<Profile>))
    ensures
        (r.0@, r.1@) == follow_first(actor, username@, true),
{
    FollowUser::start(actor, username, true)
}

// https://realworld-docs.netlify.app/docs/specs/backend-specs/endpoints#unfollow-user
/// Starts the operation in which `actor` stops following the user named
/// `username`.
pub fn unfollow_user(actor: u128, username: String) -> (r: (FollowUser, Step<Profile>))
    ensures
        (r.0@, r.1@) == follow_first(actor, username@, false),
{
    FollowUser::start(actor, username, false)
}

} // verus!
