use super::events::EventType;
use super::{DateTime, NodeId, Oid, User};
use std::collections::HashMap;
use vstd::prelude::*;

verus! {

/// A note that a check attached to a range of a file.
#[derive(Clone, Debug)]
pub struct Annotation {
    pub path: String,
    pub start_line: u64,
    pub end_line: u64,
    pub start_column: Option<u64>,
    pub end_colum: Option<u64>,
    pub annotation_level: Option<String>,
    pub message: Option<String>,
    pub title: Option<String>,
    pub raw_details: Option<String>,
}

/// An image that a check shows with its output.
#[derive(Clone, Debug)]
pub struct Image {
    pub alt: String,
    pub image_url: String,
    pub caption: Option<String>,
}

/// What a check run reports beside its conclusion.
#[derive(Clone, Debug)]
pub struct CheckOutput {
    pub title: String,
    pub summary: String,
    pub text: String,
    pub annotations_count: Option<u64>,
    pub annotations_url: Option<String>,
    pub annotations: Option<Vec<Annotation>>,
    pub images: Option<Vec<Image>>,
}

/// One run of a CI check on a commit.
#[derive(Clone, Debug)]
pub struct CheckRun {
    pub id: u64,
    pub head_sha: Oid,
    pub node_id: NodeId,
    pub external_id: String,
    pub url: String,
    pub html_url: String,
    pub details_url: String,
    pub status: String,
    pub conclusion: Option<String>,
    pub started_at: DateTime,
    pub completed_at: DateTime,
    pub output: CheckOutput,
    pub name: String,
    pub check_suite: CheckSuite,
    pub app: App,
}

/// The forge application that runs a check.
#[derive(Clone, Debug)]
pub struct App {
    pub id: u64,
    pub slug: String,
    pub node_id: NodeId,
    pub owner: User,
    pub name: String,
    pub description: Option<String>,
    pub external_url: String,
    pub html_url: String,
    pub created_at: DateTime,
    pub updated_at: DateTime,
    pub permissions: HashMap<String, String>,
    pub events: Vec<EventType>,
}

/// The runs of one application's checks on one commit.
#[derive(Clone, Debug)]
pub struct CheckSuite {
    pub id: u64,
    pub node_id: NodeId,
    pub head_branch: Option<String>,
    pub head_sha: Oid,
    pub status: String,
    pub conclusion: Option<String>,
    pub url: String,
    pub before: Option<String>,
    pub after: Option<String>,
    pub app: App,
    pub created_at: DateTime,
    pub updated_at: DateTime,
    pub latest_check_runs_count: Option<u64>,
    pub check_runs_url: Option<String>,
}

/// Whether a check's conclusion is a pass: only `success` is.
pub open spec fn conclusion_passes(conclusion: Option<Seq<char>>) -> bool {
    conclusion == Some("success"@)
}

impl CheckRun {
    /// Whether this run concluded with `success`.
    pub fn passed(&self) -> (r: bool)
        ensures
            r == conclusion_passes(
                match self.conclusion {
                    Some(c) => Some(c@),
                    None => None,
                },
            ),
    {
        match &self.conclusion {
            Some(c) => *c == "success".to_owned(),
            None => false,
        }
    }
}

} // verus!
