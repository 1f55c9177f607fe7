//! Webhook payloads of the forge.
pub mod check;
pub mod events;

use vstd::prelude::*;

verus! {

/// A git object id, as hex text.
#[derive(Clone, Debug)]
pub struct Oid(pub String);

/// The forge's global id of an object.
#[derive(Clone, Debug)]
pub struct NodeId(pub String);

/// A point in time, as the forge writes it (ISO 8601 text).
#[derive(Clone, Debug)]
pub struct DateTime(pub String);

/// An account on the forge.
#[derive(Clone, Debug)]
pub struct User {
    pub login: String,
    pub id: u64,
}

/// A repository on the forge.
#[derive(Clone, Debug)]
pub struct Repository {
    pub id: u64,
    pub name: String,
    pub full_name: String,
    pub owner: User,
}

/// One side of a pull request: a branch and the commit it points to.
#[derive(Clone, Debug)]
pub struct PullRequestRef {
    pub git_ref: String,
    pub sha: Oid,
    /// The repository of the branch; absent when it was deleted.
    pub repo: Option<Repository>,
}

/// What a payload says of a pull request.
#[derive(Clone, Debug)]
pub struct PullRequest {
    pub number: u64,
    pub head: PullRequestRef,
    pub base: PullRequestRef,
    pub labels: Vec<String>,
    pub maintainer_can_modify: bool,
}

/// A review of a pull request.
#[derive(Clone, Debug)]
pub struct Review {
    pub id: u64,
    pub user: User,
    pub body: Option<String>,
    pub state: String,
}

/// A comment on a line of a pull request.
#[derive(Clone, Debug)]
pub struct ReviewComment {
    pub id: u64,
    pub user: User,
    pub body: String,
}

/// A commit as a push event lists it.
#[derive(Clone, Debug)]
pub struct Commit {
    pub id: Oid,
    pub message: String,
}

/// Who pushed.
#[derive(Clone, Debug)]
pub struct Pusher {
    pub name: String,
    pub email: Option<String>,
}

} // verus!
