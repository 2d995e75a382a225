use vstd::prelude::*;

verus! {

/// A segment may name a directory entry on a POSIX filesystem: it is not
/// empty, is not `.` or `..`, and holds neither a separator nor a NUL.
pub open spec fn segment_ok(s: Seq<char>) -> bool {
    &&& s.len() > 0
    &&& s != seq!['.']
    &&& s != seq!['.', '.']
    &&& forall|i: int| 0 <= i < s.len() ==> s[i] != '/' && s[i] != '\0'
}

/// Every segment of the path can be addressed on the local filesystem.
pub open spec fn path_ok(p: Seq<Seq<char>>) -> bool {
    forall|i: int| 0 <= i < p.len() ==> segment_ok(#[trigger] p[i])
}

/// Index of the first segment that cannot be addressed locally.
pub open spec fn first_bad_segment(p: Seq<Seq<char>>, i: int) -> bool {
    &&& 0 <= i < p.len()
    &&& !segment_ok(p[i])
    &&& forall|j: int| 0 <= j < i ==> segment_ok(#[trigger] p[j])
}

/// `/s0/s1/.../sn`: each segment preceded by a separator.
pub open spec fn joined(p: Seq<Seq<char>>) -> Seq<char>
    decreases p.len(),
{
    if p.len() == 0 {
        Seq::empty()
    } else {
        joined(p.drop_last()) + seq!['/'] + p.last()
    }
}

/// The absolute local path that a virtual path stands for: the filesystem
/// root for the empty path, else its segments under the root.
pub open spec fn local_of(p: Seq<Seq<char>>) -> Seq<char> {
    if p.len() == 0 {
        seq!['/']
    } else {
        joined(p)
    }
}

/// A backend-independent path: a sequence of segments below the root.
#[derive(Debug)]
pub struct Path {
    parts: Vec<String>,
}

impl Clone for Path {
    fn clone(&self) -> (r: Path)
        ensures
            r@ == self@,
    {
        let r = Path { parts: self.prefix_parts(self.parts.len()) };
        assert(r@ =~= self@);
        r
    }
}

impl View for Path {
    type V = Seq<Seq<char>>;

    closed spec fn view(&self) -> Seq<Seq<char>> {
        self.parts@.map_values(|s: String| s@)
    }
}

/// Why a virtual path could not be turned into a local one.
#[derive(Clone, Copy, Debug, PartialEq, Eq, Structural)]
pub struct PathError {
    /// Position of the first segment that cannot be addressed locally.
    pub segment: usize,
}

pub(crate) fn copy_string(s: &String) -> (r: String)
    ensures
        r@ == s@,
{
    String::from_str(s.as_str())
}

pub(crate) fn segment_is_ok(s: &String) -> (r: bool)
    ensures
        r == segment_ok(s@),
{
    let t = s.as_str();
    let n = t.unicode_len();
    if n == 0 {
        return false;
    }
    let c0 = t.get_char(0);
    if n == 1 && c0 == '.' {
        assert(s@ =~= seq!['.']);
        return false;
    }
    if n == 2 && c0 == '.' && t.get_char(1) == '.' {
        assert(s@ =~= seq!['.', '.']);
        return false;
    }
    assert(s@ != seq!['.']) by {
        if n == 1 {
            assert(seq!['.'][0] == '.');
        }
    }
    assert(s@ != seq!['.', '.']) by {
        if n == 2 && c0 == '.' {
            assert(seq!['.', '.'][1] == '.');
        }
    }
    let mut i: usize = 0;
    while i < n
        invariant
            n == s@.len(),
            t@ == s@,
            i <= n,
            forall|j: int| 0 <= j < i ==> s@[j] != '/' && s@[j] != '\0',
        decreases n - i,
    {
        let c = t.get_char(i);
        if c == '/' || c == '\0' {
            return false;
        }
        i = i + 1;
    }
    true
}

impl Path {
    /// The empty path: the root itself.
    pub fn root() -> (r: Path)
        ensures
            r@ == Seq::<Seq<char>>::empty(),
    {
        let r = Path { parts: Vec::new() };
        assert(r@ =~= Seq::<Seq<char>>::empty());
        r
    }

    /// A path made of the given segments, in order.
    pub fn from_parts(parts: Vec<String>) -> (r: Path)
        ensures
            r@.len() == parts@.len(),
            forall|i: int| 0 <= i < parts@.len() ==> #[trigger] r@[i] == parts@[i]@,
    {
        Path { parts }
    }

    /// The segments of this path, in order.
    pub fn parts(&self) -> (r: &Vec<String>)
        ensures
            r@.len() == self@.len(),
            forall|i: int| 0 <= i < r@.len() ==> #[trigger] r@[i]@ == self@[i],
    {
        &self.parts
    }

    /// Copies of the first `upto` segments.
    fn prefix_parts(&self, upto: usize) -> (r: Vec<String>)
        requires
            upto <= self@.len(),
        ensures
            r@.map_values(|s: String| s@) == self@.subrange(0, upto as int),
    {
        let mut parts: Vec<String> = Vec::new();
        let mut i: usize = 0;
        while i < upto
            invariant
                upto <= self.parts@.len(),
                i <= upto,
                parts@.len() == i,
                forall|j: int| 0 <= j < i ==> #[trigger] parts@[j]@ == self.parts@[j]@,
            decreases upto - i,
        {
            parts.push(copy_string(&self.parts[i]));
            i = i + 1;
        }
        assert(parts@.map_values(|s: String| s@) =~= self@.subrange(0, upto as int));
        parts
    }

    /// This path extended by one segment.
    pub fn child(&self, name: &String) -> (r: Path)
        ensures
            r@ == self@.push(name@),
    {
        let mut parts = self.prefix_parts(self.parts.len());
        let ghost before = parts@;
        assert(self@.subrange(0, self@.len() as int) =~= self@);
        parts.push(copy_string(name));
        let r = Path { parts };
        assert forall|i: int| 0 <= i < self@.len() implies r@[i] == self@[i] by {
            assert(r@[i] == parts@[i]@);
            assert(parts@[i] == before[i]);
            assert(before.map_values(|s: String| s@)[i] == before[i]@);
        }
        assert(r@ =~= self@.push(name@));
        r
    }

    /// The path without its last segment; `None` for the root.
    pub fn parent(&self) -> (r: Option<Path>)
        ensures
            self@.len() == 0 ==> r.is_none(),
            self@.len() > 0 ==> r.is_some() && r.unwrap()@ == self@.drop_last(),
    {
        let n = self.parts.len();
        if n == 0 {
            return None;
        }
        let r = Path { parts: self.prefix_parts(n - 1) };
        assert(r@ =~= self@.drop_last());
        Some(r)
    }

    /// Converts this path into the absolute local path it stands for.
    pub fn to_local(&self) -> (r: Result<String, PathError>)
        ensures
            path_ok(self@) ==> r is Ok && r->Ok_0@ == local_of(self@),
            !path_ok(self@) ==> r is Err && first_bad_segment(self@, r->Err_0.segment as int),
    {
        let n = self.parts.len();
        let mut out = String::new();
        let mut i: usize = 0;
        while i < n
            invariant
                n == self.parts@.len(),
                i <= n,
                out@ == joined(self@.subrange(0, i as int)),
                forall|j: int| 0 <= j < i ==> segment_ok(#[trigger] self@[j]),
            decreases n - i,
        {
            if !segment_is_ok(&self.parts[i]) {
                assert(!segment_ok(self@[i as int]));
                return Err(PathError { segment: i });
            }
            out.append("/");
            out.append(self.parts[i].as_str());
            proof {
                let next = self@.subrange(0, i + 1);
                assert(next.drop_last() =~= self@.subrange(0, i as int));
                reveal_strlit("/");
                assert(out@ =~= joined(next));
            }
            i = i + 1;
        }
        assert(self@.subrange(0, n as int) =~= self@);
        if n == 0 {
            out.append("/");
            proof {
                reveal_strlit("/");
                assert(out@ =~= seq!['/']);
            }
        }
        Ok(out)
    }
}

proof fn lemma_joined_len(p: Seq<Seq<char>>)
    requires
        path_ok(p),
    ensures
        joined(p).len() >= 2 * p.len(),
    decreases p.len(),
{
    if p.len() > 0 {
        assert(segment_ok(p[p.len() - 1]));
        lemma_joined_len(p.drop_last());
    }
}

proof fn lemma_joined_injective(a: Seq<Seq<char>>, b: Seq<Seq<char>>)
    requires
        path_ok(a),
        path_ok(b),
        joined(a) == joined(b),
    ensures
        a == b,
    decreases a.len(),
{
    lemma_joined_len(a);
    lemma_joined_len(b);
    if a.len() == 0 || b.len() == 0 {
        assert(a.len() == 0 && b.len() == 0);
        assert(a =~= b);
    } else {
        let s = joined(a);
        let la = a.last();
        let lb = b.last();
        let ia = a.drop_last();
        let ib = b.drop_last();
        assert(segment_ok(a[a.len() - 1]));
        assert(segment_ok(b[b.len() - 1]));
        assert(s == joined(ia) + seq!['/'] + la);
        assert(s == joined(ib) + seq!['/'] + lb);
        if la.len() < lb.len() {
            let k = s.len() - la.len() - 1;
            assert(s[k] == (joined(ia) + seq!['/'])[k]);
            assert(s[k] == '/');
            assert(s[k] == lb[k - (s.len() - lb.len())]);
            assert(false);
        }
        if lb.len() < la.len() {
            let k = s.len() - lb.len() - 1;
            assert(s[k] == (joined(ib) + seq!['/'])[k]);
            assert(s[k] == '/');
            assert(s[k] == la[k - (s.len() - la.len())]);
            assert(false);
        }
        assert(la =~= s.subrange(s.len() - la.len(), s.len() as int));
        assert(lb =~= s.subrange(s.len() - lb.len(), s.len() as int));
        assert(joined(ia) =~= s.subrange(0, s.len() - la.len() - 1));
        assert(joined(ib) =~= s.subrange(0, s.len() - lb.len() - 1));
        assert(path_ok(ia));
        assert(path_ok(ib));
        lemma_joined_injective(ia, ib);
        assert(a =~= ia.push(la));
        assert(b =~= ib.push(lb));
    }
}

/// Resolution is a function of the virtual path, and no two addressable
/// virtual paths resolve to the same local path.
pub proof fn lemma_resolve_injective(p: Seq<Seq<char>>, q: Seq<Seq<char>>)
    requires
        path_ok(p),
        path_ok(q),
    ensures
        (local_of(p) == local_of(q)) <==> (p == q),
{
    if local_of(p) == local_of(q) {
        lemma_joined_len(p);
        lemma_joined_len(q);
        if p.len() == 0 || q.len() == 0 {
            assert(p.len() == 0 && q.len() == 0);
            assert(p =~= q);
        } else {
            lemma_joined_injective(p, q);
        }
    }
}

} // verus!
