use vstd::prelude::*;

verus! {

/// The sequence of character-sequence views of a sequence of strings.
/// Path contracts speak of paths through this abstraction.
pub open spec fn views_of(s: Seq<String>) -> Seq<Seq<char>> {
    Seq::new(s.len(), |i: int| s[i]@)
}

pub proof fn lemma_views_of_push(s: Seq<String>, x: String)
    ensures
        views_of(s.push(x)) == views_of(s).push(x@),
{
    let a = views_of(s.push(x));
    let b = views_of(s).push(x@);
    assert forall|j: int| 0 <= j < a.len() implies a[j] == b[j] by {
        if j < s.len() {
            assert(s.push(x)[j] == s[j]);
        } else {
            assert(s.push(x)[j] == x);
        }
    }
    assert(a =~= b);
}

pub proof fn lemma_views_of_concat(a: Seq<String>, b: Seq<String>)
    ensures
        views_of(a + b) == views_of(a) + views_of(b),
{
    let l = views_of(a + b);
    let r = views_of(a) + views_of(b);
    assert forall|j: int| 0 <= j < l.len() implies l[j] == r[j] by {
        if j < a.len() {
            assert((a + b)[j] == a[j]);
        } else {
            assert((a + b)[j] == b[j - a.len()]);
        }
    }
    assert(l =~= r);
}

pub proof fn lemma_views_of_subrange(s: Seq<String>, lo: int, hi: int)
    requires
        0 <= lo <= hi <= s.len(),
    ensures
        views_of(s.subrange(lo, hi)) == views_of(s).subrange(lo, hi),
{
    let a = views_of(s.subrange(lo, hi));
    let b = views_of(s).subrange(lo, hi);
    assert forall|j: int| 0 <= j < a.len() implies a[j] == b[j] by {
        assert(s.subrange(lo, hi)[j] == s[lo + j]);
    }
    assert(a =~= b);
}

/// An absolute filesystem path, held as its components from the root down.
/// The empty sequence of components stands for the filesystem root itself.
#[derive(Debug)]
pub struct AbsPath {
    pub parts: Vec<String>,
}

impl View for AbsPath {
    type V = Seq<Seq<char>>;

    open spec fn view(&self) -> Seq<Seq<char>> {
        views_of(self.parts@)
    }
}

/// A string that may stand between two separators of a path: non-empty,
/// holding no separator, and not a traversal back up the tree.
pub open spec fn valid_part(s: Seq<char>) -> bool {
    &&& s.len() > 0
    &&& s != ".."@
    &&& forall|i: int| 0 <= i < s.len() ==> s[i] != '/'
}

/// Every component of `s` is a valid path component.
pub open spec fn valid_parts(s: Seq<Seq<char>>) -> bool {
    forall|i: int| 0 <= i < s.len() ==> valid_part(#[trigger] s[i])
}

/// A fresh vector holding the same strings as `v`.
fn clone_string_vec(v: &Vec<String>) -> (r: Vec<String>)
    ensures
        r@ == v@,
{
    let mut r: Vec<String> = Vec::new();
    let mut i: usize = 0;
    assert(r@ =~= v@.take(0));
    while i < v.len()
        invariant
            i <= v.len(),
            r@ == v@.take(i as int),
        decreases v.len() - i,
    {
        r.push(v[i].clone());
        assert(r@ =~= v@.take(i as int + 1));
        i = i + 1;
    }
    assert(r@ =~= v@);
    r
}

impl AbsPath {
    /// The filesystem root.
    pub fn root() -> (r: AbsPath)
        ensures
            r@ == Seq::<Seq<char>>::empty(),
    {
        let r = AbsPath { parts: Vec::new() };
        assert(r@ =~= Seq::<Seq<char>>::empty());
        r
    }

    /// A fresh copy of this path.
    pub fn clone_path(&self) -> (r: AbsPath)
        ensures
            r@ == self@,
    {
        AbsPath { parts: clone_string_vec(&self.parts) }
    }

    /// How many components stand below the root.
    pub fn depth(&self) -> (n: usize)
        ensures
            n == self@.len(),
    {
        self.parts.len()
    }

    /// This path extended by one further component.
    pub fn child(&self, part: &String) -> (r: AbsPath)
        ensures
            r@ == self@.push(part@),
    {
        let mut q = clone_string_vec(&self.parts);
        q.push(part.clone());
        proof {
            lemma_views_of_push(self.parts@, *part);
        }
        AbsPath { parts: q }
    }

    /// This path extended by each of `segments`, in order.
    pub fn join_all(&self, segments: &Vec<String>) -> (r: AbsPath)
        ensures
            r@ == self@ + views_of(segments@),
    {
        let mut q = clone_string_vec(&self.parts);
        let mut i: usize = 0;
        assert(q@ =~= self.parts@ + segments@.take(0));
        while i < segments.len()
            invariant
                i <= segments.len(),
                q@ == self.parts@ + segments@.take(i as int),
            decreases segments.len() - i,
        {
            q.push(segments[i].clone());
            assert(q@ =~= self.parts@ + segments@.take(i as int + 1));
            i = i + 1;
        }
        assert(q@ =~= self.parts@ + segments@);
        proof {
            lemma_views_of_concat(self.parts@, segments@);
        }
        AbsPath { parts: q }
    }

    /// The path one level up, or `None` at the filesystem root.
    pub fn parent(&self) -> (r: Option<AbsPath>)
        ensures
            self@.len() == 0 ==> r is None,
            self@.len() > 0 ==> (r matches Some(p) && p@ == self@.drop_last()),
    {
        if self.parts.len() == 0 {
            None
        } else {
            let mut q = clone_string_vec(&self.parts);
            q.pop();
            proof {
                lemma_views_of_subrange(self.parts@, 0, self.parts@.len() - 1);
            }
            assert(q@ =~= self.parts@.subrange(0, self.parts@.len() - 1));
            Some(AbsPath { parts: q })
        }
    }
}

} // verus!
