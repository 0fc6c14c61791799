use vstd::prelude::*;

use crate::paths::AbsPath;
use crate::repository::Repository;

verus! {

/// One move of the upward search for an enclosing repository.
#[derive(Debug)]
pub enum DiscoverStep {
    /// The current directory holds a control directory: the search ends
    /// here, with the handle rooted at it.
    Found(Repository),
    /// No control directory here: the search continues at this parent.
    Ascend(AbsPath),
    /// The filesystem root was reached without a match. Not an error.
    NotFound,
}

/// Where the upward search from `d` ends, for the set `ctrl` of directories
/// that hold a control directory: the nearest ancestor-or-self of `d` that
/// is in `ctrl`, or `None` when no ancestor is.
pub open spec fn discover_spec(d: Seq<Seq<char>>, ctrl: Set<Seq<Seq<char>>>) -> Option<
    Seq<Seq<char>>,
>
    decreases d.len(),
{
    if ctrl.contains(d) {
        Some(d)
    } else if d.len() == 0 {
        None
    } else {
        discover_spec(d.drop_last(), ctrl)
    }
}

/// `a` names an ancestor-or-self of `b`: its components lead off `b`'s.
pub open spec fn is_prefix_of(a: Seq<Seq<char>>, b: Seq<Seq<char>>) -> bool {
    a.len() <= b.len() && a == b.take(a.len() as int)
}

/// One step of the upward search, from the canonical directory `current`.
/// `control_exists` is what a probe found for the control directory right
/// under `current`. The caller loops: perform the probe, take a step, and
/// either stop with the answer or continue from the returned parent.
pub fn find_repository_step(current: &AbsPath, control_exists: bool) -> (r: DiscoverStep)
    ensures
        control_exists ==> (r matches DiscoverStep::Found(repo) && repo.worktree@ == current@
            && repo.wf()),
        !control_exists && current@.len() > 0 ==> (r matches DiscoverStep::Ascend(p) && p@
            == current@.drop_last()),
        !control_exists && current@.len() == 0 ==> r is NotFound,
        forall|ctrl: Set<Seq<Seq<char>>>|
            ctrl.contains(current@) == control_exists ==> #[trigger] discover_spec(current@, ctrl)
                == (match r {
                DiscoverStep::Found(repo) => Some(repo.worktree@),
                DiscoverStep::Ascend(p) => discover_spec(p@, ctrl),
                DiscoverStep::NotFound => None::<Seq<Seq<char>>>,
            }),
{
    if control_exists {
        DiscoverStep::Found(Repository::new(current))
    } else {
        match current.parent() {
            Some(p) => DiscoverStep::Ascend(p),
            None => DiscoverStep::NotFound,
        }
    }
}

/// Law: from any directory strictly inside a repository rooted at `r` — with
/// no repository rooted closer to `d` — the upward search ends at `r`,
/// however deep `d` is nested.
pub proof fn lemma_discover_nearest(d: Seq<Seq<char>>, r: Seq<Seq<char>>, ctrl: Set<Seq<Seq<char>>>)
    requires
        is_prefix_of(r, d),
        ctrl.contains(r),
        forall|p: Seq<Seq<char>>|
            is_prefix_of(p, d) && p.len() > r.len() ==> !(#[trigger] ctrl.contains(p)),
    ensures
        discover_spec(d, ctrl) == Some(r),
    decreases d.len(),
{
    assert(d.take(d.len() as int) =~= d);
    assert(is_prefix_of(d, d));
    if ctrl.contains(d) {
        assert(d.len() <= r.len());
        assert(r =~= d);
    } else {
        if d.len() == r.len() {
            assert(r =~= d);
            assert(false);
        }
        let d2 = d.drop_last();
        assert(d2 =~= d.take(d.len() - 1));
        assert(d2.take(r.len() as int) =~= d.take(r.len() as int));
        assert(is_prefix_of(r, d2));
        assert forall|p: Seq<Seq<char>>|
            is_prefix_of(p, d2) && p.len() > r.len() implies !(#[trigger] ctrl.contains(p)) by {
            assert(d.take(p.len() as int) =~= d2.take(p.len() as int));
            assert(is_prefix_of(p, d));
        }
        lemma_discover_nearest(d2, r, ctrl);
    }
}

/// Law: when no ancestor-or-self of `d` holds a control directory, the
/// upward search reports absence — a normal result, never an error.
pub proof fn lemma_discover_none(d: Seq<Seq<char>>, ctrl: Set<Seq<Seq<char>>>)
    requires
        forall|p: Seq<Seq<char>>| is_prefix_of(p, d) ==> !(#[trigger] ctrl.contains(p)),
    ensures
        discover_spec(d, ctrl) is None,
    decreases d.len(),
{
    assert(d.take(d.len() as int) =~= d);
    assert(is_prefix_of(d, d));
    assert(!ctrl.contains(d));
    if d.len() > 0 {
        let d2 = d.drop_last();
        assert(d2 =~= d.take(d.len() - 1));
        assert forall|p: Seq<Seq<char>>| is_prefix_of(p, d2) implies !(#[trigger] ctrl.contains(
            p,
        )) by {
            assert(d.take(p.len() as int) =~= d2.take(p.len() as int));
            assert(is_prefix_of(p, d));
        }
        lemma_discover_none(d2, ctrl);
    }
}

} // verus!
