//! The workspace context that an inference receives: the kernel's summary of recent activity
//! joined with the git state.
use vstd::prelude::*;

use crate::agent::prompt::opt_view;
use crate::kernel::git::GitSnapshot;

verus! {

/// How active the kernel has seen a workspace.
#[derive(Debug, Clone, Copy, PartialEq, Eq)]
pub enum KernelStatus {
    /// Nothing observed yet.
    Empty,
    /// Recent changes observed.
    Active,
    /// Observed, with no recent change.
    Idle,
}

/// The workspace status an inference is told.
#[derive(Debug, Clone, Copy, PartialEq, Eq)]
pub enum WorkspaceStatus {
    Unknown,
    Modified,
    Clean,
}

/// The kernel's summary of a workspace's activity.
#[derive(Debug, Clone)]
pub struct AiContextSummary {
    pub workspace_status: KernelStatus,
    pub recent_changes: Vec<String>,
    pub file_count: usize,
    pub total_changes: usize,
}

/// The kernel's summary together with the git state.
#[derive(Debug, Clone)]
pub struct WorkspaceSnapshot {
    pub ai: AiContextSummary,
    pub git: GitSnapshot,
}

/// The context of an inference, before the runtime that receives it stamps its hash.
#[derive(Debug, Clone)]
pub struct InferenceContext {
    pub recent_changes: Vec<String>,
    pub workspace_status: WorkspaceStatus,
    pub file_count: usize,
    pub git_branch: Option<String>,
    pub git_dirty: bool,
    pub git_modified_count: usize,
}

/// An empty workspace is unknown to the inference, an active one modified, an idle one clean.
pub open spec fn status_spec(s: KernelStatus) -> WorkspaceStatus {
    match s {
        KernelStatus::Empty => WorkspaceStatus::Unknown,
        KernelStatus::Active => WorkspaceStatus::Modified,
        KernelStatus::Idle => WorkspaceStatus::Clean,
    }
}

pub open spec fn strings_view(v: Seq<String>) -> Seq<Seq<char>> {
    v.map_values(|s: String| s@)
}

fn copy_strings(v: &Vec<String>) -> (r: Vec<String>)
    ensures
        strings_view(r@) == strings_view(v@),
{
    let mut r: Vec<String> = Vec::new();
    let mut i: usize = 0;
    while i < v.len()
        invariant
            i <= v.len(),
            strings_view(r@) =~= strings_view(v@).take(i as int),
        decreases v.len() - i,
    {
        let ghost before = r@;
        r.push(crate::agent::prompt::copy_str(v[i].as_str()));
        assert(strings_view(r@) =~= strings_view(before).push(v@[i as int]@));
        assert(strings_view(v@).take(i + 1) =~= strings_view(v@).take(i as int).push(v@[i as int]@));
        i = i + 1;
    }
    assert(strings_view(v@).take(v.len() as int) =~= strings_view(v@));
    r
}

/// The context for a snapshot: the activity summary's changes, status and file count, and the
/// git branch, dirtiness and number of modified files.
pub fn snapshot_to_context(snapshot: &WorkspaceSnapshot) -> (r: InferenceContext)
    ensures
        strings_view(r.recent_changes@) == strings_view(snapshot.ai.recent_changes@),
        r.workspace_status == status_spec(snapshot.ai.workspace_status),
        r.file_count == snapshot.ai.file_count,
        opt_view(r.git_branch) == opt_view(snapshot.git.branch),
        r.git_dirty == snapshot.git.working_tree_dirty,
        r.git_modified_count == snapshot.git.modified_files@.len(),
{
    let workspace_status = match snapshot.ai.workspace_status {
        KernelStatus::Empty => WorkspaceStatus::Unknown,
        KernelStatus::Active => WorkspaceStatus::Modified,
        KernelStatus::Idle => WorkspaceStatus::Clean,
    };
    let git_branch = match &snapshot.git.branch {
        Some(b) => Some(crate::agent::prompt::copy_str(b.as_str())),
        None => None,
    };
    InferenceContext {
        recent_changes: copy_strings(&snapshot.ai.recent_changes),
        workspace_status,
        file_count: snapshot.ai.file_count,
        git_branch,
        git_dirty: snapshot.git.working_tree_dirty,
        git_modified_count: snapshot.git.modified_files.len(),
    }
}

} // verus!
