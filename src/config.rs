use vstd::prelude::*;

verus! {

/// The label names that the queue gives a meaning to.
#[derive(Clone, Debug)]
pub struct LabelConfig {
    pub high_priority: String,
    pub squash: String,
}

/// Read-only settings of one repository.
#[derive(Clone, Debug)]
pub struct RepoConfig {
    pub owner: String,
    pub name: String,
    /// The required checks, in the order in which results are reported.
    pub checks: Vec<String>,
    /// How long, in the clock's units, the checks of a pull request may run.
    pub timeout: u64,
    pub labels: LabelConfig,
    /// Whether landing first pushes the merge commit to the contributor's branch.
    pub maintainer_mode: bool,
}

} // verus!
