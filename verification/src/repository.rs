use vstd::prelude::*;

use crate::codec::{zlib_compress, zlib_deflate, zlib_inflate};
use crate::errors::RepoError;
use crate::paths::{AbsPath, valid_parts, views_of, lemma_views_of_subrange};

verus! {

/// What a probe of the filesystem found at a given path. The library never
/// touches the disk itself: callers probe and hand the answer in.
#[derive(Clone, Copy, Debug, PartialEq, Eq, Structural)]
pub enum NodeKind {
    /// Nothing exists at the path.
    Missing,
    /// The path names a directory.
    Dir,
    /// The path names a file (or anything that is not a directory).
    File,
}

/// The name of the control directory kept directly inside the worktree.
pub open spec fn control_dir_part() -> Seq<char> {
    ".gitrs"@
}

/// The exact text seeded into the `description` file.
pub open spec fn description_seed() -> Seq<char> {
    "Unnamed repository; edit this file 'description' to name the repository.\n"@
}

/// The exact text seeded into the `HEAD` file: a symbolic reference to the
/// default branch.
pub open spec fn head_seed() -> Seq<char> {
    "ref: refs/heads/master\n"@
}

/// The control-directory name as a string value.
pub fn control_dir_name() -> (s: String)
    ensures
        s@ == control_dir_part(),
{
    String::from_str(".gitrs")
}

/// An immutable handle binding a worktree root to its control-directory root.
#[derive(Debug)]
pub struct Repository {
    /// The directory holding the user-visible, tracked project files.
    pub worktree: AbsPath,
    /// The repository's private control directory.
    pub gitdir: AbsPath,
}

/// The outcome of resolving a directory path against a probe of the disk.
#[derive(Debug)]
pub enum DirResolution {
    /// The directory already exists; its resolved path.
    Present(AbsPath),
    /// The path does not exist and creation was not requested. Not an error,
    /// and no action for the caller: nothing is to be mutated.
    Absent,
    /// The path does not exist; the caller is to create the directory chain
    /// ending at this resolved path.
    Create(AbsPath),
}

/// The outcome of resolving a file path: its parent directory decides.
#[derive(Debug)]
pub enum FileResolution {
    /// The parent directory exists; the resolved file path is ready for use.
    Present(AbsPath),
    /// The parent directory does not exist and creation was not requested.
    Absent,
    /// The parent chain (first path) is to be created, after which the
    /// resolved file path (second path) is ready for use.
    CreateParent(AbsPath, AbsPath),
}

/// Everything a caller must persist for one content write, in order: create
/// the parent chain if asked, then create or truncate the target and write
/// the bytes.
#[derive(Debug)]
pub struct WritePlan {
    /// The directory chain to create first, if any.
    pub create_parent: Option<AbsPath>,
    /// The file to create, or to truncate if it already exists.
    pub target: AbsPath,
    /// The compressed bytes to write.
    pub bytes: Vec<u8>,
}

/// A seed file of the skeleton: where it goes and its exact initial text.
#[derive(Debug)]
pub struct SeedFile {
    pub path: AbsPath,
    pub content: String,
}

/// The actions that realize a new repository on disk, in order: create the
/// base chain if asked, then each directory, then each seed file.
#[derive(Debug)]
pub struct InitPlan {
    /// The handle of the repository being initialized.
    pub repo: Repository,
    /// Whether the worktree and control directory must be created first.
    pub create_base: bool,
    /// The skeleton directories to create, in order.
    pub dirs: Vec<AbsPath>,
    /// The seed files to write once the directories exist.
    pub files: Vec<SeedFile>,
}

/// The four skeleton directories, in creation order, under a control root.
pub open spec fn skeleton_dirs_spec(gitdir: Seq<Seq<char>>) -> Seq<Seq<Seq<char>>> {
    seq![
        gitdir.push("branches"@),
        gitdir.push("objects"@),
        gitdir.push("refs"@).push("tags"@),
        gitdir.push("refs"@).push("heads"@),
    ]
}

/// What a successful write plan guarantees: the target is the resolved
/// content path, and the planned bytes are the compressed payload, from
/// which inflation recovers the payload exactly.
pub open spec fn upsert_plan_ok(
    repo: Repository,
    segments: Seq<Seq<char>>,
    data: Seq<u8>,
    plan: WritePlan,
) -> bool {
    &&& plan.target@ == repo.repo_path_spec(segments)
    &&& plan.bytes@ == zlib_deflate(data)
    &&& zlib_inflate(plan.bytes@) == data
}

/// What a successful initialization plan guarantees: a well-formed handle on
/// the given worktree, the four skeleton directories, and the two seed files
/// with their exact contents.
pub open spec fn init_plan_ok(worktree: Seq<Seq<char>>, wt_node: NodeKind, plan: InitPlan) -> bool {
    &&& plan.repo.worktree@ == worktree
    &&& plan.repo.wf()
    &&& plan.create_base == (wt_node is Missing)
    &&& views_of_paths(plan.dirs@) == skeleton_dirs_spec(plan.repo.gitdir@)
    &&& plan.files@.len() == 2
    &&& plan.files@[0].path@ == plan.repo.gitdir@.push("description"@)
    &&& plan.files@[0].content@ == description_seed()
    &&& plan.files@[1].path@ == plan.repo.gitdir@.push("HEAD"@)
    &&& plan.files@[1].content@ == head_seed()
}

/// The sequence of views of a sequence of paths.
pub open spec fn views_of_paths(s: Seq<AbsPath>) -> Seq<Seq<Seq<char>>> {
    Seq::new(s.len(), |i: int| s[i]@)
}

impl Repository {
    /// The handle's one structural invariant: the control root is the
    /// worktree root extended by the control-directory name.
    pub open spec fn wf(self) -> bool {
        self.gitdir@ == self.worktree@.push(control_dir_part())
    }

    /// Binds a worktree root to its control directory. Pure: computes the
    /// control root deterministically and never touches the disk.
    pub fn new(worktree: &AbsPath) -> (r: Repository)
        ensures
            r.worktree@ == worktree@,
            r.wf(),
    {
        let name = control_dir_name();
        Repository { worktree: worktree.clone_path(), gitdir: worktree.child(&name) }
    }

    /// The path `segments` resolves to under the control root.
    pub open spec fn repo_path_spec(self, segments: Seq<Seq<char>>) -> Seq<Seq<char>> {
        self.gitdir@ + segments
    }

    /// Joins `segments` onto the control root. Pure; never fails.
    pub fn repo_path(&self, segments: &Vec<String>) -> (r: AbsPath)
        ensures
            r@ == self.repo_path_spec(views_of(segments@)),
    {
        self.gitdir.join_all(segments)
    }

    /// Resolves a directory under the control root against a probe of the
    /// disk. `node` is what the probe found at the resolved path.
    pub fn resolve_dir(&self, segments: &Vec<String>, node: NodeKind, create_if_missing: bool) -> (r:
        Result<DirResolution, RepoError>)
        requires
            valid_parts(views_of(segments@)),
        ensures
            ({
                let p = self.repo_path_spec(views_of(segments@));
                match r {
                    Ok(DirResolution::Present(q)) => node == NodeKind::Dir && q@ == p,
                    Ok(DirResolution::Absent) => node == NodeKind::Missing && !create_if_missing,
                    Ok(DirResolution::Create(q)) => node == NodeKind::Missing && create_if_missing
                        && q@ == p,
                    Err(e) => node == NodeKind::File && e == RepoError::NotADirectory,
                }
            }),
    {
        match node {
            NodeKind::Dir => Ok(DirResolution::Present(self.repo_path(segments))),
            NodeKind::File => Err(RepoError::NotADirectory),
            NodeKind::Missing => {
                if create_if_missing {
                    Ok(DirResolution::Create(self.repo_path(segments)))
                } else {
                    Ok(DirResolution::Absent)
                }
            },
        }
    }

    /// Resolves a file path under the control root: the parent directory
    /// (all but the last segment) is resolved as a directory, whose absence
    /// or failure decides; the file itself is never created here.
    /// `parent_node` is what a probe found at the parent path.
    pub fn resolve_file(
        &self,
        segments: &Vec<String>,
        parent_node: NodeKind,
        create_parent_if_missing: bool,
    ) -> (r: Result<FileResolution, RepoError>)
        requires
            segments@.len() > 0,
            valid_parts(views_of(segments@)),
        ensures
            ({
                let full = self.repo_path_spec(views_of(segments@));
                let parent = self.repo_path_spec(views_of(segments@).drop_last());
                match r {
                    Ok(FileResolution::Present(q)) => parent_node == NodeKind::Dir && q@ == full,
                    Ok(FileResolution::Absent) => parent_node == NodeKind::Missing
                        && !create_parent_if_missing,
                    Ok(FileResolution::CreateParent(d, q)) => parent_node == NodeKind::Missing
                        && create_parent_if_missing && d@ == parent && q@ == full,
                    Err(e) => parent_node == NodeKind::File && e == RepoError::NotADirectory,
                }
            }),
    {
        proof {
            lemma_views_of_subrange(segments@, 0, segments@.len() - 1);
            assert(views_of(segments@).drop_last() =~= views_of(segments@).subrange(
                0,
                views_of(segments@).len() - 1,
            ));
        }
        let parent_segments = vec_without_last(segments);
        match self.resolve_dir(&parent_segments, parent_node, create_parent_if_missing)? {
            DirResolution::Present(_) => Ok(FileResolution::Present(self.repo_path(segments))),
            DirResolution::Absent => Ok(FileResolution::Absent),
            DirResolution::Create(d) => Ok(
                FileResolution::CreateParent(d, self.repo_path(segments)),
            ),
        }
    }

    /// Looks up a directory under the control root, without creating it.
    /// `node` is what a probe found at the resolved path. Absence is a
    /// normal result, not an error.
    pub fn get_path_to_dir(&self, segments: &Vec<String>, node: NodeKind) -> (r: Result<
        Option<AbsPath>,
        RepoError,
    >)
        requires
            valid_parts(views_of(segments@)),
        ensures
            ({
                let p = self.repo_path_spec(views_of(segments@));
                match r {
                    Ok(Some(q)) => node == NodeKind::Dir && q@ == p,
                    Ok(None) => node == NodeKind::Missing,
                    Err(e) => node == NodeKind::File && e == RepoError::NotADirectory,
                }
            }),
    {
        match self.resolve_dir(segments, node, false)? {
            DirResolution::Present(q) => Ok(Some(q)),
            DirResolution::Absent => Ok(None),
            DirResolution::Create(_) => Ok(None),
        }
    }

    /// Looks up a file under the control root, without creating anything.
    /// `parent_node` is what a probe found at the parent directory and
    /// `file_exists` whether the file itself is on disk. Absence of either
    /// is a normal result, not an error.
    pub fn get_path_to_file(
        &self,
        segments: &Vec<String>,
        parent_node: NodeKind,
        file_exists: bool,
    ) -> (r: Result<Option<AbsPath>, RepoError>)
        requires
            segments@.len() > 0,
            valid_parts(views_of(segments@)),
        ensures
            ({
                let full = self.repo_path_spec(views_of(segments@));
                match r {
                    Ok(Some(q)) => parent_node == NodeKind::Dir && file_exists && q@ == full,
                    Ok(None) => parent_node == NodeKind::Missing || (parent_node == NodeKind::Dir
                        && !file_exists),
                    Err(e) => parent_node == NodeKind::File && e == RepoError::NotADirectory,
                }
            }),
    {
        match self.resolve_file(segments, parent_node, false)? {
            FileResolution::Present(q) => if file_exists {
                Ok(Some(q))
            } else {
                Ok(None)
            },
            FileResolution::Absent => Ok(None),
            FileResolution::CreateParent(_, _) => Ok(None),
        }
    }

    /// Plans the write of `data`, compressed, to the content path named by
    /// `segments`: an overwrite, never an append. `parent_node` is what a
    /// probe found at the parent directory; a missing parent chain is
    /// scheduled for creation, a file in its place is a failure.
    pub fn upsert_file(&self, segments: &Vec<String>, data: &Vec<u8>, parent_node: NodeKind) -> (r:
        Result<WritePlan, RepoError>)
        requires
            segments@.len() > 0,
            valid_parts(views_of(segments@)),
        ensures
            ({
                let parent = self.repo_path_spec(views_of(segments@).drop_last());
                match r {
                    Ok(plan) => parent_node != NodeKind::File && upsert_plan_ok(
                        *self,
                        views_of(segments@),
                        data@,
                        plan,
                    ) && (match plan.create_parent {
                        Some(d) => parent_node == NodeKind::Missing && d@ == parent,
                        None => parent_node == NodeKind::Dir,
                    }),
                    Err(e) => parent_node == NodeKind::File && e == RepoError::NotADirectory,
                }
            }),
    {
        match self.resolve_file(segments, parent_node, true)? {
            FileResolution::Present(target) => Ok(
                WritePlan { create_parent: None, target, bytes: zlib_compress(data) },
            ),
            FileResolution::CreateParent(parent, target) => Ok(
                WritePlan { create_parent: Some(parent), target, bytes: zlib_compress(data) },
            ),
            FileResolution::Absent => {
                // Creation was requested, so the resolver never reports absence.
                proof {
                    assert(false);
                }
                Err(RepoError::WriteFailed)
            },
        }
    }
}

impl Repository {
    /// Plans the initialization of a brand-new repository at `worktree`.
    /// `wt_node` is what a probe found at the worktree path, and
    /// `control_exists` / `control_is_empty_dir` what probes found at its
    /// control-directory path (ignored when the worktree itself is missing:
    /// nothing can exist beneath a missing directory).
    ///
    /// On success the returned plan holds, in order, everything the caller
    /// must materialize; on failure nothing is to be touched.
    pub fn init(
        worktree: &AbsPath,
        wt_node: NodeKind,
        control_exists: bool,
        control_is_empty_dir: bool,
    ) -> (r: Result<InitPlan, RepoError>)
        ensures
            wt_node == NodeKind::File ==> (r matches Err(e) && e == RepoError::NotADirectory),
            wt_node == NodeKind::Dir && control_exists && !control_is_empty_dir ==> (r matches Err(e)
                && e == RepoError::RepositoryAlreadyExists),
            wt_node == NodeKind::Missing || (wt_node == NodeKind::Dir && (!control_exists
                || control_is_empty_dir)) ==> (r matches Ok(plan) && init_plan_ok(
                worktree@,
                wt_node,
                plan,
            )),
    {
        match wt_node {
            NodeKind::File => {
                return Err(RepoError::NotADirectory);
            },
            NodeKind::Dir => {
                if control_exists && !control_is_empty_dir {
                    return Err(RepoError::RepositoryAlreadyExists);
                }
            },
            NodeKind::Missing => {},
        }
        let repo = Repository::new(worktree);
        let mut dirs: Vec<AbsPath> = Vec::new();
        dirs.push(repo.gitdir.child(&String::from_str("branches")));
        dirs.push(repo.gitdir.child(&String::from_str("objects")));
        let refs_dir = repo.gitdir.child(&String::from_str("refs"));
        dirs.push(refs_dir.child(&String::from_str("tags")));
        dirs.push(refs_dir.child(&String::from_str("heads")));
        assert(views_of_paths(dirs@) =~= skeleton_dirs_spec(repo.gitdir@));
        let mut files: Vec<SeedFile> = Vec::new();
        files.push(
            SeedFile {
                path: repo.gitdir.child(&String::from_str("description")),
                content: String::from_str(
                    "Unnamed repository; edit this file 'description' to name the repository.\n",
                ),
            },
        );
        files.push(
            SeedFile {
                path: repo.gitdir.child(&String::from_str("HEAD")),
                content: String::from_str("ref: refs/heads/master\n"),
            },
        );
        Ok(InitPlan { repo, create_base: wt_node == NodeKind::Missing, dirs, files })
    }
}

/// Law: two writes through the same handle at the same segments target the
/// same file, and because the second write truncates, decompressing what it
/// left behind recovers the second payload alone.
pub proof fn lemma_upsert_overwrite(
    repo: Repository,
    segments: Seq<Seq<char>>,
    first: Seq<u8>,
    second: Seq<u8>,
    p1: WritePlan,
    p2: WritePlan,
)
    requires
        upsert_plan_ok(repo, segments, first, p1),
        upsert_plan_ok(repo, segments, second, p2),
    ensures
        p1.target@ == p2.target@,
        zlib_inflate(p2.bytes@) == second,
{
}

/// A fresh vector holding all strings of `v` but the last.
fn vec_without_last(v: &Vec<String>) -> (r: Vec<String>)
    requires
        v@.len() > 0,
    ensures
        r@ == v@.drop_last(),
{
    let mut r: Vec<String> = Vec::new();
    let mut i: usize = 0;
    assert(r@ =~= v@.take(0));
    while i < v.len() - 1
        invariant
            v@.len() > 0,
            i <= v@.len() - 1,
            r@ == v@.take(i as int),
        decreases v.len() - 1 - i,
    {
        r.push(v[i].clone());
        assert(r@ =~= v@.take(i as int + 1));
        i = i + 1;
    }
    assert(r@ =~= v@.drop_last());
    r
}

} // verus!
