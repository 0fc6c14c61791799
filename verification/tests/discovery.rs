use gitrs::discover::{find_repository_step, DiscoverStep};
use gitrs::paths::AbsPath;
use gitrs::repository::Repository;

fn path(parts: &[&str]) -> AbsPath {
    AbsPath { parts: parts.iter().map(|s| s.to_string()).collect() }
}

fn segs(parts: &[&str]) -> Vec<String> {
    parts.iter().map(|s| s.to_string()).collect()
}

/// Drives the step function the way a shell would, against a simulated
/// filesystem: `control_roots` lists the directories that hold a control
/// directory.
fn discover(start: AbsPath, control_roots: &[Vec<String>]) -> Option<Repository> {
    let mut current = start;
    loop {
        let control_exists = control_roots.contains(&current.parts);
        match find_repository_step(&current, control_exists) {
            DiscoverStep::Found(repo) => return Some(repo),
            DiscoverStep::Ascend(parent) => current = parent,
            DiscoverStep::NotFound => return None,
        }
    }
}

#[test]
fn finds_enclosing_repository_from_nested_dir() {
    let roots = vec![segs(&["tmp", "proj"])];
    let repo = discover(path(&["tmp", "proj", "sub", "dir"]), &roots).unwrap();
    assert_eq!(repo.worktree.parts, segs(&["tmp", "proj"]));
    assert_eq!(repo.gitdir.parts, segs(&["tmp", "proj", ".gitrs"]));
}

#[test]
fn finds_repository_at_start_itself() {
    let roots = vec![segs(&["tmp", "proj"])];
    let repo = discover(path(&["tmp", "proj"]), &roots).unwrap();
    assert_eq!(repo.worktree.parts, segs(&["tmp", "proj"]));
}

#[test]
fn reports_absence_without_error() {
    let roots: Vec<Vec<String>> = vec![];
    assert!(discover(path(&["tmp", "proj", "sub"]), &roots).is_none());
    assert!(discover(AbsPath::root(), &roots).is_none());
}

#[test]
fn nearest_repository_wins_over_outer_one() {
    let roots = vec![segs(&["a"]), segs(&["a", "b"])];
    let repo = discover(path(&["a", "b", "c"]), &roots).unwrap();
    assert_eq!(repo.worktree.parts, segs(&["a", "b"]));
}

#[test]
fn repository_at_filesystem_root() {
    let roots = vec![Vec::<String>::new()];
    let repo = discover(path(&["deep", "down"]), &roots).unwrap();
    assert_eq!(repo.worktree.parts, Vec::<String>::new());
    assert_eq!(repo.gitdir.parts, segs(&[".gitrs"]));
}
