use vstd::prelude::*;
use vstd::string::*;

verus! {

/// An absolute, fully resolved filesystem path, held as the sequence of its
/// named components below the root. The root itself has no components.
#[derive(Clone, Debug, PartialEq, Eq)]
pub struct AbsPath {
    pub components: Vec<String>,
}

impl View for AbsPath {
    type V = Seq<Seq<char>>;

    open spec fn view(&self) -> Seq<Seq<char>> {
        self.components@.map_values(|c: String| c@)
    }
}

/// `a` is a prefix of `b`, component by component.
pub open spec fn is_prefix(a: Seq<Seq<char>>, b: Seq<Seq<char>>) -> bool {
    a.len() <= b.len() && b.subrange(0, a.len() as int) == a
}

/// `c` is a common prefix of `a` and `b` that cannot be extended: either one
/// of the two is exhausted, or they differ right after it.
pub open spec fn is_longest_common_prefix(c: Seq<Seq<char>>, a: Seq<Seq<char>>, b: Seq<Seq<char>>) -> bool {
    &&& is_prefix(c, a)
    &&& is_prefix(c, b)
    &&& (c.len() == a.len() || c.len() == b.len() || a[c.len() as int] != b[c.len() as int])
}

/// The longest common prefix of `a` and `b`; unique, see
/// `lemma_common_ancestor_unique`.
pub open spec fn common_ancestor(a: Seq<Seq<char>>, b: Seq<Seq<char>>) -> Seq<Seq<char>> {
    choose|c: Seq<Seq<char>>| is_longest_common_prefix(c, a, b)
}

/// Two paths have only one longest common prefix.
pub proof fn lemma_longest_common_prefix_unique(
    c1: Seq<Seq<char>>,
    c2: Seq<Seq<char>>,
    a: Seq<Seq<char>>,
    b: Seq<Seq<char>>,
)
    requires
        is_longest_common_prefix(c1, a, b),
        is_longest_common_prefix(c2, a, b),
    ensures
        c1 == c2,
{
    if c1.len() < c2.len() {
        let k = c1.len() as int;
        assert(a[k] == a.subrange(0, c2.len() as int)[k]);
        assert(b[k] == b.subrange(0, c2.len() as int)[k]);
    } else if c2.len() < c1.len() {
        let k = c2.len() as int;
        assert(a[k] == a.subrange(0, c1.len() as int)[k]);
        assert(b[k] == b.subrange(0, c1.len() as int)[k]);
    }
    assert(c1 =~= c2);
}

/// Any longest common prefix is the one `common_ancestor` names.
pub proof fn lemma_common_ancestor_unique(c: Seq<Seq<char>>, a: Seq<Seq<char>>, b: Seq<Seq<char>>)
    requires
        is_longest_common_prefix(c, a, b),
    ensures
        common_ancestor(a, b) == c,
{
    lemma_longest_common_prefix_unique(common_ancestor(a, b), c, a, b);
}

/// The common ancestor of two paths is a prefix of both, and no longer common
/// prefix exists; a path's common ancestor with itself is the path; two paths
/// that differ in their first component have the root as common ancestor.
pub proof fn lemma_common_ancestor_laws(p: Seq<Seq<char>>, q: Seq<Seq<char>>)
    ensures
        is_prefix(common_ancestor(p, q), p),
        is_prefix(common_ancestor(p, q), q),
        forall|d: Seq<Seq<char>>|
            is_prefix(d, p) && is_prefix(d, q) ==> d.len() <= common_ancestor(p, q).len(),
        common_ancestor(p, p) == p,
        (p.len() == 0 || q.len() == 0 || p[0] != q[0]) ==> common_ancestor(p, q).len() == 0,
{
    let c = common_ancestor_witness(p, q);
    lemma_common_ancestor_witness(p, q);
    lemma_common_ancestor_unique(c, p, q);
    let ca = common_ancestor(p, q);
    assert forall|d: Seq<Seq<char>>| is_prefix(d, p) && is_prefix(d, q) implies d.len() <= ca.len() by {
        if d.len() > ca.len() {
            let k = ca.len() as int;
            assert(p[k] == p.subrange(0, d.len() as int)[k]);
            assert(q[k] == q.subrange(0, d.len() as int)[k]);
        }
    }
    assert(is_longest_common_prefix(p, p, p)) by {
        assert(p.subrange(0, p.len() as int) =~= p);
    }
    lemma_common_ancestor_unique(p, p, p);
    if p.len() == 0 || q.len() == 0 || p[0] != q[0] {
        if ca.len() > 0 {
            assert(p[0] == p.subrange(0, ca.len() as int)[0]);
            assert(q[0] == q.subrange(0, ca.len() as int)[0]);
        }
    }
}

/// A longest common prefix of `a` and `b`, built component by component.
pub open spec fn common_ancestor_witness(a: Seq<Seq<char>>, b: Seq<Seq<char>>) -> Seq<Seq<char>>
    decreases a.len(),
{
    if a.len() == 0 || b.len() == 0 || a[0] != b[0] {
        Seq::empty()
    } else {
        seq![a[0]] + common_ancestor_witness(a.drop_first(), b.drop_first())
    }
}

/// `common_ancestor_witness` is a longest common prefix.
pub proof fn lemma_common_ancestor_witness(a: Seq<Seq<char>>, b: Seq<Seq<char>>)
    ensures
        is_longest_common_prefix(common_ancestor_witness(a, b), a, b),
    decreases a.len(),
{
    if a.len() == 0 || b.len() == 0 || a[0] != b[0] {
        assert(a.subrange(0, 0) =~= Seq::<Seq<char>>::empty());
        assert(b.subrange(0, 0) =~= Seq::<Seq<char>>::empty());
    } else {
        let (a1, b1) = (a.drop_first(), b.drop_first());
        lemma_common_ancestor_witness(a1, b1);
        let c1 = common_ancestor_witness(a1, b1);
        let c = common_ancestor_witness(a, b);
        assert(c == seq![a[0]] + c1);
        assert(a.subrange(0, c.len() as int) =~= seq![a[0]] + a1.subrange(0, c1.len() as int));
        assert(b.subrange(0, c.len() as int) =~= seq![b[0]] + b1.subrange(0, c1.len() as int));
        if c1.len() < a1.len() && c1.len() < b1.len() {
            assert(a[c.len() as int] == a1[c1.len() as int]);
            assert(b[c.len() as int] == b1[c1.len() as int]);
        }
    }
}

/// `child` lies exactly two components below `ancestor`.
pub open spec fn is_grandchild(child: Seq<Seq<char>>, ancestor: Seq<Seq<char>>) -> bool {
    is_prefix(ancestor, child) && child.len() == ancestor.len() + 2
}

/// The text of a path: `/` for the root, else each component preceded by `/`.
pub open spec fn path_text(p: Seq<Seq<char>>) -> Seq<char> {
    if p.len() == 0 {
        seq!['/']
    } else {
        joined_text(p)
    }
}

/// Each component preceded by `/`, in order.
pub open spec fn joined_text(p: Seq<Seq<char>>) -> Seq<char>
    decreases p.len(),
{
    if p.len() == 0 {
        Seq::empty()
    } else {
        joined_text(p.drop_last()) + seq!['/'] + p.last()
    }
}

impl AbsPath {
    /// The root path `/`.
    pub fn root() -> (r: AbsPath)
        ensures
            r@ == Seq::<Seq<char>>::empty(),
    {
        AbsPath { components: Vec::new() }
    }

    /// A copy of this path.
    pub fn clone_path(&self) -> (r: AbsPath)
        ensures
            r@ == self@,
    {
        self.prefix(self.components.len())
    }

    /// Number of components below the root.
    pub fn depth(&self) -> (r: usize)
        ensures
            r == self@.len(),
    {
        self.components.len()
    }

    /// The last component, if the path is not the root.
    pub fn file_name(&self) -> (r: Option<String>)
        ensures
            self@.len() == 0 ==> r is None,
            self@.len() > 0 ==> (r matches Some(n) && n@ == self@.last()),
    {
        let n = self.components.len();
        if n == 0 {
            None
        } else {
            Some(self.components[n - 1].clone())
        }
    }

    /// The path without its last component, if the path is not the root.
    pub fn parent(&self) -> (r: Option<AbsPath>)
        ensures
            self@.len() == 0 ==> r is None,
            self@.len() > 0 ==> (r matches Some(q) && q@ == self@.drop_last()),
    {
        let n = self.components.len();
        if n == 0 {
            None
        } else {
            Some(self.prefix(n - 1))
        }
    }

    /// The path made of the first `k` components.
    pub fn prefix(&self, k: usize) -> (r: AbsPath)
        requires
            k <= self@.len(),
        ensures
            r@ == self@.subrange(0, k as int),
    {
        let mut comps: Vec<String> = Vec::new();
        let mut i: usize = 0;
        while i < k
            invariant
                i <= k,
                k <= self@.len(),
                comps@.len() == i,
                forall|j: int| 0 <= j < i ==> comps@[j]@ == self@[j],
            decreases k - i,
        {
            comps.push(self.components[i].clone());
            i += 1;
        }
        let r = AbsPath { components: comps };
        assert(r@ =~= self@.subrange(0, k as int));
        assert(k == self@.len() ==> self@.subrange(0, k as int) =~= self@);
        r
    }

    /// This path followed by the components of `rel`.
    pub fn join(&self, rel: &Vec<String>) -> (r: AbsPath)
        ensures
            r@ == self@ + rel@.map_values(|c: String| c@),
    {
        let mut comps: Vec<String> = Vec::new();
        let mut i: usize = 0;
        let n = self.components.len();
        while i < n
            invariant
                i <= n,
                n == self@.len(),
                comps@.len() == i,
                forall|j: int| 0 <= j < i ==> comps@[j]@ == self@[j],
            decreases n - i,
        {
            comps.push(self.components[i].clone());
            i += 1;
        }
        let mut k: usize = 0;
        while k < rel.len()
            invariant
                k <= rel@.len(),
                n == self@.len(),
                comps@.len() == n + k,
                forall|j: int| 0 <= j < n ==> comps@[j]@ == self@[j],
                forall|j: int| 0 <= j < k ==> comps@[n + j]@ == rel@[j]@,
            decreases rel@.len() - k,
        {
            comps.push(rel[k].clone());
            k += 1;
        }
        let r = AbsPath { components: comps };
        assert(r@ =~= self@ + rel@.map_values(|c: String| c@));
        r
    }

    /// The components of this path that follow `base`, if `base` is a prefix
    /// of it.
    pub fn strip_prefix(&self, base: &AbsPath) -> (r: Option<Vec<String>>)
        ensures
            r is Some <==> is_prefix(base@, self@),
            r matches Some(rel) ==> rel@.map_values(|c: String| c@) == self@.subrange(
                base@.len() as int,
                self@.len() as int,
            ),
    {
        let nb = base.components.len();
        let n = self.components.len();
        if nb > n {
            return None;
        }
        let mut i: usize = 0;
        while i < nb
            invariant
                i <= nb,
                nb <= n,
                nb == base@.len(),
                n == self@.len(),
                forall|j: int| 0 <= j < i ==> self@[j] == base@[j],
            decreases nb - i,
        {
            if self.components[i] != base.components[i] {
                assert(self@.subrange(0, nb as int)[i as int] != base@[i as int]);
                return None;
            }
            i += 1;
        }
        assert(self@.subrange(0, nb as int) =~= base@);
        let mut rel: Vec<String> = Vec::new();
        let mut k: usize = nb;
        while k < n
            invariant
                nb <= k <= n,
                n == self@.len(),
                rel@.len() == k - nb,
                forall|j: int| 0 <= j < k - nb ==> rel@[j]@ == self@[nb + j],
            decreases n - k,
        {
            rel.push(self.components[k].clone());
            k += 1;
        }
        assert(rel@.map_values(|c: String| c@) =~= self@.subrange(nb as int, n as int));
        Some(rel)
    }

    /// The text of this path, as `path_text` gives it.
    pub fn to_text(&self) -> (r: String)
        ensures
            r@ == path_text(self@),
    {
        let mut s = String::new();
        proof {
            reveal_strlit("/");
        }
        if self.components.len() == 0 {
            s.append("/");
            return s;
        }
        let mut i: usize = 0;
        while i < self.components.len()
            invariant
                i <= self@.len(),
                s@ == joined_text(self@.subrange(0, i as int)),
            decreases self@.len() - i,
        {
            let ghost prev = s@;
            s.append("/");
            s.append(self.components[i].as_str());
            proof {
                reveal_strlit("/");
                assert(s@ == prev + seq!['/'] + self.components@[i as int]@);
                let sub = self@.subrange(0, i + 1);
                assert(sub.drop_last() =~= self@.subrange(0, i as int));
                assert(sub.last() == self@[i as int]);
                assert(self@[i as int] == self.components@[i as int]@);
                assert(s@ =~= joined_text(sub));
            }
            i += 1;
        }
        assert(self@.subrange(0, self@.len() as int) =~= self@);
        s
    }
}

/// The longest path that is a prefix of both `path1` and `path2`, component by
/// component; the root when they share no component.
pub fn find_common_ancestor(path1: &AbsPath, path2: &AbsPath) -> (r: AbsPath)
    ensures
        is_longest_common_prefix(r@, path1@, path2@),
        r@ == common_ancestor(path1@, path2@),
{
    let n1 = path1.components.len();
    let n2 = path2.components.len();
    let mut i: usize = 0;
    while i < n1 && i < n2 && path1.components[i] == path2.components[i]
        invariant
            i <= n1,
            i <= n2,
            n1 == path1@.len(),
            n2 == path2@.len(),
            forall|j: int| 0 <= j < i ==> path1@[j] == path2@[j],
        decreases n1 - i,
    {
        i += 1;
    }
    let r = path1.prefix(i);
    assert(path2@.subrange(0, i as int) =~= r@);
    proof {
        lemma_common_ancestor_unique(r@, path1@, path2@);
    }
    r
}

} // verus!
