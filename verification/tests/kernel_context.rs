use cotrex::kernel::context::{
    snapshot_to_context, AiContextSummary, KernelStatus, WorkspaceSnapshot, WorkspaceStatus,
};
use cotrex::kernel::git::GitSnapshot;

fn make_snapshot(ai: AiContextSummary) -> WorkspaceSnapshot {
    WorkspaceSnapshot { ai, git: GitSnapshot::empty() }
}

#[test]
fn summary_empty_maps_to_unknown() {
    let snapshot = make_snapshot(AiContextSummary {
        workspace_status: KernelStatus::Empty,
        recent_changes: Vec::new(),
        file_count: 0,
        total_changes: 0,
    });
    let ctx = snapshot_to_context(&snapshot);
    assert_eq!(ctx.workspace_status, WorkspaceStatus::Unknown);
    assert_eq!(ctx.file_count, 0);
    assert!(ctx.recent_changes.is_empty());
}

#[test]
fn summary_active_maps_to_modified() {
    let snapshot = make_snapshot(AiContextSummary {
        workspace_status: KernelStatus::Active,
        recent_changes: vec!["src/main.rs".to_string()],
        file_count: 5,
        total_changes: 10,
    });
    let ctx = snapshot_to_context(&snapshot);
    assert_eq!(ctx.workspace_status, WorkspaceStatus::Modified);
    assert_eq!(ctx.file_count, 5);
    assert_eq!(ctx.recent_changes, vec!["src/main.rs".to_string()]);
}

#[test]
fn summary_idle_maps_to_clean() {
    let snapshot = make_snapshot(AiContextSummary {
        workspace_status: KernelStatus::Idle,
        recent_changes: Vec::new(),
        file_count: 3,
        total_changes: 7,
    });
    let ctx = snapshot_to_context(&snapshot);
    assert_eq!(ctx.workspace_status, WorkspaceStatus::Clean);
    assert_eq!(ctx.file_count, 3);
}

#[test]
fn git_fields_populated_from_snapshot() {
    let mut git = GitSnapshot::empty();
    git.branch = Some("main".to_string());
    git.working_tree_dirty = true;
    git.modified_files = vec!["src/main.rs".to_string()];
    let snapshot = WorkspaceSnapshot {
        ai: AiContextSummary {
            workspace_status: KernelStatus::Active,
            recent_changes: Vec::new(),
            file_count: 10,
            total_changes: 1,
        },
        git,
    };
    let ctx = snapshot_to_context(&snapshot);
    assert_eq!(ctx.git_branch.as_deref(), Some("main"));
    assert!(ctx.git_dirty);
    assert_eq!(ctx.git_modified_count, 1);
}
