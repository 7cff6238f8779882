//! The webhook deliveries that the service understands.

use crate::config;
use vstd::prelude::*;

verus! {

/// One delivery.
#[derive(Debug)]
pub enum Message {
    Ping { zen: String, hook_id: u64, repository: Repository },
    IssueComment {
        action: IssueCommentAction,
        issue: Issue,
        repository: Repository,
        comment: Comment,
    },
}

/// What happened to a comment.
#[derive(Debug, PartialEq, Eq, Structural)]
pub enum IssueCommentAction {
    Created,
    Edited,
    Deleted,
}

/// The issue or pull request that a comment belongs to.
#[derive(Debug)]
pub struct Issue {
    pub id: u64,
    pub number: u64,
}

/// A repository as a delivery names it.
#[derive(Debug)]
pub struct Repository {
    pub name: String,
    pub owner: Owner,
}

/// The owner of a repository.
#[derive(Debug)]
pub struct Owner {
    pub login: String,
}

/// A comment.
#[derive(Debug)]
pub struct Comment {
    pub body: String,
}

impl Message {
    /// The repository that a delivery is about, as it was sent.
    pub open spec fn sender(&self) -> Repository {
        match *self {
            Message::Ping { repository, .. } => repository,
            Message::IssueComment { repository, .. } => repository,
        }
    }

    /// The name of the event that carries such a delivery.
    pub fn github_event(&self) -> (r: &'static str)
        ensures
            self is Ping ==> r@ == "ping"@,
            self is IssueComment ==> r@ == "issue_comment"@,
    {
        match self {
            Message::Ping { .. } => "ping",
            Message::IssueComment { .. } => "issue_comment",
        }
    }

    /// The repository that a delivery is about: its owner's login and its
    /// name.
    pub fn repository(&self) -> (r: config::Repository)
        ensures
            r.user@ == self.sender().owner.login@,
            r.name@ == self.sender().name@,
    {
        match self {
            Message::Ping { repository, .. } => config::Repository::from(repository),
            Message::IssueComment { repository, .. } => config::Repository::from(repository),
        }
    }
}

} // verus!
