use super::{Commit, Oid, PullRequest, Pusher, Repository, Review, ReviewComment, User};
use vstd::prelude::*;

verus! {

/// Whether `name` holds exactly the text `lit`.
fn is_named(name: &String, lit: &str) -> (r: bool)
    ensures
        r == (name@ == lit@),
{
    *name == lit.to_owned()
}

/// The kinds of webhook event that the forge sends.
#[derive(Clone, Copy, Debug, PartialEq, Eq, Structural)]
pub enum EventType {
    CheckRun,
    CheckSuite,
    CommitComment,
    ContentReference,
    Create,
    Delete,
    DeployKey,
    Deployment,
    DeploymentStatus,
    /// No longer sent.
    Download,
    /// No longer sent.
    Follow,
    Fork,
    /// No longer sent.
    ForkApply,
    GithubAppAuthorization,
    /// No longer sent.
    Gist,
    Gollum,
    Installation,
    InstallationRepositories,
    IssueComment,
    Issues,
    Label,
    MarketplacePurchase,
    Member,
    Membership,
    Meta,
    Milestone,
    Organization,
    OrgBlock,
    Package,
    PageBuild,
    ProjectCard,
    ProjectColumn,
    Project,
    Public,
    PullRequest,
    PullRequestReview,
    PullRequestReviewComment,
    Push,
    RegistryPackage,
    Release,
    Repository,
    RepositoryDispatch,
    RepositoryImport,
    RepositoryVulnerabilityAlert,
    SecurityAdvisory,
    Star,
    Status,
    Team,
    TeamAdd,
    Watch,
}

/// The name under which the forge sends each kind of event.
pub open spec fn event_name(e: EventType) -> Seq<char> {
    match e {
        EventType::CheckRun => "check_run"@,
        EventType::CheckSuite => "check_suite"@,
        EventType::CommitComment => "commit_comment"@,
        EventType::ContentReference => "content_reference"@,
        EventType::Create => "create"@,
        EventType::Delete => "delete"@,
        EventType::DeployKey => "deploy_key"@,
        EventType::Deployment => "deployment"@,
        EventType::DeploymentStatus => "deployment_status"@,
        EventType::Download => "download"@,
        EventType::Follow => "follow"@,
        EventType::Fork => "fork"@,
        EventType::ForkApply => "fork_apply"@,
        EventType::GithubAppAuthorization => "github_app_authorization"@,
        EventType::Gist => "gist"@,
        EventType::Gollum => "gollum"@,
        EventType::Installation => "installation"@,
        EventType::InstallationRepositories => "installation_repositories"@,
        EventType::IssueComment => "issue_comment"@,
        EventType::Issues => "issues"@,
        EventType::Label => "label"@,
        EventType::MarketplacePurchase => "marketplace_purchase"@,
        EventType::Member => "member"@,
        EventType::Membership => "membership"@,
        EventType::Meta => "meta"@,
        EventType::Milestone => "milestone"@,
        EventType::Organization => "organization"@,
        EventType::OrgBlock => "org_block"@,
        EventType::Package => "package"@,
        EventType::PageBuild => "page_build"@,
        EventType::ProjectCard => "project_card"@,
        EventType::ProjectColumn => "project_column"@,
        EventType::Project => "project"@,
        EventType::Public => "public"@,
        EventType::PullRequest => "pull_request"@,
        EventType::PullRequestReview => "pull_request_review"@,
        EventType::PullRequestReviewComment => "pull_request_review_comment"@,
        EventType::Push => "push"@,
        EventType::RegistryPackage => "registry_package"@,
        EventType::Release => "release"@,
        EventType::Repository => "repository"@,
        EventType::RepositoryDispatch => "repository_dispatch"@,
        EventType::RepositoryImport => "repository_import"@,
        EventType::RepositoryVulnerabilityAlert => "repository_vulnerability_alert"@,
        EventType::SecurityAdvisory => "security_advisory"@,
        EventType::Star => "star"@,
        EventType::Status => "status"@,
        EventType::Team => "team"@,
        EventType::TeamAdd => "team_add"@,
        EventType::Watch => "watch"@,
    }
}

/// The error for a webhook event name that is not known.
#[derive(Clone, Copy, Debug, PartialEq, Eq, Structural)]
pub struct ParseEventTypeError;

impl ParseEventTypeError {
    /// The message that describes this error.
    pub fn message(&self) -> (r: String)
        ensures
            r@ == "invalid github webhook event"@,
    {
        "invalid github webhook event".to_owned()
    }
}

impl EventType {
    /// The kind of event sent under `s`.
    pub fn from_str(s: &str) -> (r: Result<EventType, ParseEventTypeError>)
        ensures
            r matches Ok(e) ==> event_name(e) == s@,
            r is Err ==> forall|e: EventType| event_name(e) != s@,
    {
        let name = s.to_owned();
        if is_named(&name, "check_run") {
            return Ok(EventType::CheckRun);
        }
        if is_named(&name, "check_suite") {
            return Ok(EventType::CheckSuite);
        }
        if is_named(&name, "commit_comment") {
            return Ok(EventType::CommitComment);
        }
        if is_named(&name, "content_reference") {
            return Ok(EventType::ContentReference);
        }
        if is_named(&name, "create") {
            return Ok(EventType::Create);
        }
        if is_named(&name, "delete") {
            return Ok(EventType::Delete);
        }
        if is_named(&name, "deploy_key") {
            return Ok(EventType::DeployKey);
        }
        if is_named(&name, "deployment") {
            return Ok(EventType::Deployment);
        }
        if is_named(&name, "deployment_status") {
            return Ok(EventType::DeploymentStatus);
        }
        if is_named(&name, "download") {
            return Ok(EventType::Download);
        }
        if is_named(&name, "follow") {
            return Ok(EventType::Follow);
        }
        if is_named(&name, "fork") {
            return Ok(EventType::Fork);
        }
        if is_named(&name, "fork_apply") {
            return Ok(EventType::ForkApply);
        }
        if is_named(&name, "github_app_authorization") {
            return Ok(EventType::GithubAppAuthorization);
        }
        if is_named(&name, "gist") {
            return Ok(EventType::Gist);
        }
        if is_named(&name, "gollum") {
            return Ok(EventType::Gollum);
        }
        if is_named(&name, "installation") {
            return Ok(EventType::Installation);
        }
        if is_named(&name, "installation_repositories") {
            return Ok(EventType::InstallationRepositories);
        }
        if is_named(&name, "issue_comment") {
            return Ok(EventType::IssueComment);
        }
        if is_named(&name, "issues") {
            return Ok(EventType::Issues);
        }
        if is_named(&name, "label") {
            return Ok(EventType::Label);
        }
        if is_named(&name, "marketplace_purchase") {
            return Ok(EventType::MarketplacePurchase);
        }
        if is_named(&name, "member") {
            return Ok(EventType::Member);
        }
        if is_named(&name, "membership") {
            return Ok(EventType::Membership);
        }
        if is_named(&name, "meta") {
            return Ok(EventType::Meta);
        }
        if is_named(&name, "milestone") {
            return Ok(EventType::Milestone);
        }
        if is_named(&name, "organization") {
            return Ok(EventType::Organization);
        }
        if is_named(&name, "org_block") {
            return Ok(EventType::OrgBlock);
        }
        if is_named(&name, "package") {
            return Ok(EventType::Package);
        }
        if is_named(&name, "page_build") {
            return Ok(EventType::PageBuild);
        }
        if is_named(&name, "project_card") {
            return Ok(EventType::ProjectCard);
        }
        if is_named(&name, "project_column") {
            return Ok(EventType::ProjectColumn);
        }
        if is_named(&name, "project") {
            return Ok(EventType::Project);
        }
        if is_named(&name, "public") {
            return Ok(EventType::Public);
        }
        if is_named(&name, "pull_request") {
            return Ok(EventType::PullRequest);
        }
        if is_named(&name, "pull_request_review") {
            return Ok(EventType::PullRequestReview);
        }
        if is_named(&name, "pull_request_review_comment") {
            return Ok(EventType::PullRequestReviewComment);
        }
        if is_named(&name, "push") {
            return Ok(EventType::Push);
        }
        if is_named(&name, "registry_package") {
            return Ok(EventType::RegistryPackage);
        }
        if is_named(&name, "release") {
            return Ok(EventType::Release);
        }
        if is_named(&name, "repository") {
            return Ok(EventType::Repository);
        }
        if is_named(&name, "repository_dispatch") {
            return Ok(EventType::RepositoryDispatch);
        }
        if is_named(&name, "repository_import") {
            return Ok(EventType::RepositoryImport);
        }
        if is_named(&name, "repository_vulnerability_alert") {
            return Ok(EventType::RepositoryVulnerabilityAlert);
        }
        if is_named(&name, "security_advisory") {
            return Ok(EventType::SecurityAdvisory);
        }
        if is_named(&name, "star") {
            return Ok(EventType::Star);
        }
        if is_named(&name, "status") {
            return Ok(EventType::Status);
        }
        if is_named(&name, "team") {
            return Ok(EventType::Team);
        }
        if is_named(&name, "team_add") {
            return Ok(EventType::TeamAdd);
        }
        if is_named(&name, "watch") {
            return Ok(EventType::Watch);
        }
        Err(ParseEventTypeError)
    }
}

/// What happened to a pull request.
#[derive(Clone, Copy, Debug, PartialEq, Eq, Structural)]
pub enum PullRequestEventAction {
    Assigned,
    Unassigned,
    Labeled,
    Unlabeled,
    Opened,
    Edited,
    Closed,
    Reopened,
    Synchronize,
    ReadyForReview,
    Locked,
    Unlocked,
}

/// The name under which the forge sends each action.
pub open spec fn pr_action_name(e: PullRequestEventAction) -> Seq<char> {
    match e {
        PullRequestEventAction::Assigned => "assigned"@,
        PullRequestEventAction::Unassigned => "unassigned"@,
        PullRequestEventAction::Labeled => "labeled"@,
        PullRequestEventAction::Unlabeled => "unlabeled"@,
        PullRequestEventAction::Opened => "opened"@,
        PullRequestEventAction::Edited => "edited"@,
        PullRequestEventAction::Closed => "closed"@,
        PullRequestEventAction::Reopened => "reopened"@,
        PullRequestEventAction::Synchronize => "synchronize"@,
        PullRequestEventAction::ReadyForReview => "ready_for_review"@,
        PullRequestEventAction::Locked => "locked"@,
        PullRequestEventAction::Unlocked => "unlocked"@,
    }
}

impl PullRequestEventAction {
    /// The action sent under `s`.
    pub fn from_name(s: &str) -> (r: Option<PullRequestEventAction>)
        ensures
            r matches Some(a) ==> pr_action_name(a) == s@,
            r is None ==> forall|a: PullRequestEventAction| pr_action_name(a) != s@,
    {
        let name = s.to_owned();
        if is_named(&name, "assigned") {
            return Some(PullRequestEventAction::Assigned);
        }
        if is_named(&name, "unassigned") {
            return Some(PullRequestEventAction::Unassigned);
        }
        if is_named(&name, "labeled") {
            return Some(PullRequestEventAction::Labeled);
        }
        if is_named(&name, "unlabeled") {
            return Some(PullRequestEventAction::Unlabeled);
        }
        if is_named(&name, "opened") {
            return Some(PullRequestEventAction::Opened);
        }
        if is_named(&name, "edited") {
            return Some(PullRequestEventAction::Edited);
        }
        if is_named(&name, "closed") {
            return Some(PullRequestEventAction::Closed);
        }
        if is_named(&name, "reopened") {
            return Some(PullRequestEventAction::Reopened);
        }
        if is_named(&name, "synchronize") {
            return Some(PullRequestEventAction::Synchronize);
        }
        if is_named(&name, "ready_for_review") {
            return Some(PullRequestEventAction::ReadyForReview);
        }
        if is_named(&name, "locked") {
            return Some(PullRequestEventAction::Locked);
        }
        if is_named(&name, "unlocked") {
            return Some(PullRequestEventAction::Unlocked);
        }
        None
    }
}

/// What happened to a review.
#[derive(Clone, Copy, Debug, PartialEq, Eq, Structural)]
pub enum PullRequestReviewEventAction {
    Submitted,
    Edited,
    Dismissed,
}

/// The name under which the forge sends each action.
pub open spec fn review_action_name(e: PullRequestReviewEventAction) -> Seq<char> {
    match e {
        PullRequestReviewEventAction::Submitted => "submitted"@,
        PullRequestReviewEventAction::Edited => "edited"@,
        PullRequestReviewEventAction::Dismissed => "dismissed"@,
    }
}

impl PullRequestReviewEventAction {
    /// The action sent under `s`.
    pub fn from_name(s: &str) -> (r: Option<PullRequestReviewEventAction>)
        ensures
            r matches Some(a) ==> review_action_name(a) == s@,
            r is None ==> forall|a: PullRequestReviewEventAction| review_action_name(a) != s@,
    {
        let name = s.to_owned();
        if is_named(&name, "submitted") {
            return Some(PullRequestReviewEventAction::Submitted);
        }
        if is_named(&name, "edited") {
            return Some(PullRequestReviewEventAction::Edited);
        }
        if is_named(&name, "dismissed") {
            return Some(PullRequestReviewEventAction::Dismissed);
        }
        None
    }
}

/// What happened to a review comment.
#[derive(Clone, Copy, Debug, PartialEq, Eq, Structural)]
pub enum PullRequestReviewCommentEventAction {
    Created,
    Edited,
    Deleted,
}

/// The name under which the forge sends each action.
pub open spec fn review_comment_action_name(e: PullRequestReviewCommentEventAction) -> Seq<char> {
    match e {
        PullRequestReviewCommentEventAction::Created => "created"@,
        PullRequestReviewCommentEventAction::Edited => "edited"@,
        PullRequestReviewCommentEventAction::Deleted => "deleted"@,
    }
}

impl PullRequestReviewCommentEventAction {
    /// The action sent under `s`.
    pub fn from_name(s: &str) -> (r: Option<PullRequestReviewCommentEventAction>)
        ensures
            r matches Some(a) ==> review_comment_action_name(a) == s@,
            r is None ==> forall|a: PullRequestReviewCommentEventAction| review_comment_action_name(a) != s@,
    {
        let name = s.to_owned();
        if is_named(&name, "created") {
            return Some(PullRequestReviewCommentEventAction::Created);
        }
        if is_named(&name, "edited") {
            return Some(PullRequestReviewCommentEventAction::Edited);
        }
        if is_named(&name, "deleted") {
            return Some(PullRequestReviewCommentEventAction::Deleted);
        }
        None
    }
}

/// A pull request was opened, edited, labelled, closed and so on.
#[derive(Clone, Debug)]
pub struct PullRequestEvent {
    pub action: PullRequestEventAction,
    pub number: u64,
    pub pull_request: PullRequest,
    pub repository: Repository,
    pub sender: User,
}

/// A review of a pull request was submitted, edited or dismissed.
#[derive(Clone, Debug)]
pub struct PullRequestReviewEvent {
    pub action: PullRequestReviewEventAction,
    pub review: Review,
    pub pull_request: PullRequest,
    pub repository: Repository,
    pub sender: User,
}

/// A review comment was created, edited or deleted.
#[derive(Clone, Debug)]
pub struct PullRequestReviewCommentEvent {
    pub action: PullRequestReviewCommentEventAction,
    pub comment: ReviewComment,
    pub pull_request: PullRequest,
    pub repository: Repository,
    pub sender: User,
}

/// Commits were pushed to a ref.
#[derive(Clone, Debug)]
pub struct PushEvent {
    pub git_ref: String,
    pub before: Oid,
    pub after: Oid,
    pub pusher: Pusher,
    pub created: bool,
    pub deleted: bool,
    pub forced: bool,
    pub base_ref: Option<String>,
    pub compare: String,
    pub commits: Vec<Commit>,
    pub head_commit: Option<Commit>,
    pub repository: Repository,
    pub sender: User,
}

} // verus!
