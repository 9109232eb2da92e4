//! Paths as sequences of segments, and the containment test between them.
//!
//! A path is text in which `/` separates segments. Empty segments and
//! segments that are a single dot carry no meaning, so `a//b/` and `./a/./b`
//! name the same place as `a/b`. Nothing else is resolved: `..` is a segment
//! like any other, and links are not followed. A path that begins with `/`
//! is absolute; an absolute path and a relative one are never related.

use vstd::prelude::*;

verus! {

/// Whether `path` starts at the root of the file system.
pub open spec fn is_absolute(path: Seq<char>) -> bool {
    path.len() > 0 && path[0] == '/'
}

/// Reads `path` from left to right. The first component holds the segments
/// that a separator has closed so far, the second the segment still open at
/// the end of `path`.
pub open spec fn scan(path: Seq<char>) -> (Seq<Seq<char>>, Seq<char>)
    decreases path.len(),
{
    if path.len() == 0 {
        (Seq::empty(), Seq::empty())
    } else {
        let (closed, open) = scan(path.drop_last());
        if path.last() == '/' {
            (close(closed, open), Seq::empty())
        } else {
            (closed, open.push(path.last()))
        }
    }
}

/// `closed` with `open` added at its end, unless `open` carries no meaning.
pub open spec fn close(closed: Seq<Seq<char>>, open: Seq<char>) -> Seq<Seq<char>> {
    if is_blank(open) {
        closed
    } else {
        closed.push(open)
    }
}

/// Whether a segment carries no meaning: it is empty or a single dot.
pub open spec fn is_blank(segment: Seq<char>) -> bool {
    segment.len() == 0 || (segment.len() == 1 && segment[0] == '.')
}

/// The segments of `path` that carry meaning, in order.
pub open spec fn segments(path: Seq<char>) -> Seq<Seq<char>> {
    close(scan(path).0, scan(path).1)
}

/// What the containment test reads of a path.
pub struct PathShape {
    pub absolute: bool,
    pub segments: Seq<Seq<char>>,
}

impl PathShape {
    /// Whether this path is `root` itself or lies below it: both start at
    /// the same place and the segments of `root` are the first segments of
    /// this path.
    pub open spec fn within(self, root: PathShape) -> bool {
        self.absolute == root.absolute && root.segments.is_prefix_of(self.segments)
    }
}

/// The shape of the path written as `path`.
pub open spec fn shape_of(path: Seq<char>) -> PathShape {
    PathShape { absolute: is_absolute(path), segments: segments(path) }
}

/// Whether the path written as `path` is the one written as `root` or lies
/// below it.
pub open spec fn is_under(path: Seq<char>, root: Seq<char>) -> bool {
    shape_of(path).within(shape_of(root))
}

/// Whether `name` can stand as a segment: it carries meaning and holds no
/// separator.
pub open spec fn is_name(name: Seq<char>) -> bool {
    !is_blank(name) && !name.contains('/')
}

/// What reading a path has closed are names, and what is still open holds
/// no separator.
proof fn lemma_scan_gives_names(path: Seq<char>)
    ensures
        forall|i: int| 0 <= i < scan(path).0.len() ==> is_name(#[trigger] scan(path).0[i]),
        !scan(path).1.contains('/'),
    decreases path.len(),
{
    if path.len() > 0 {
        lemma_scan_gives_names(path.drop_last());
    }
}

/// Every segment is a name: it is neither empty nor a single dot, and holds
/// no separator.
pub proof fn lemma_segments_are_names(path: Seq<char>)
    ensures
        forall|i: int| 0 <= i < segments(path).len() ==> is_name(#[trigger] segments(path)[i]),
{
    lemma_scan_gives_names(path);
}

/// Reading `front`, a separator and then `back` gives the segments of
/// `front`, followed by what reading `back` alone gives.
proof fn lemma_scan_join(front: Seq<char>, back: Seq<char>)
    ensures
        scan(front + seq!['/'] + back) == (segments(front) + scan(back).0, scan(back).1),
    decreases back.len(),
{
    let whole = front + seq!['/'] + back;
    if back.len() == 0 {
        assert(whole.drop_last() == front);
    } else {
        assert(whole.drop_last() == front + seq!['/'] + back.drop_last());
        lemma_scan_join(front, back.drop_last());
    }
}

/// The segments of two paths joined by a separator are those of the first
/// followed by those of the second.
pub proof fn lemma_segments_join(front: Seq<char>, back: Seq<char>)
    ensures
        segments(front + seq!['/'] + back) == segments(front) + segments(back),
{
    lemma_scan_join(front, back);
}

/// Whatever is written behind a root and a separator lies below that root:
/// the containment test misses nothing in the subtree.
pub proof fn lemma_descendant_is_under(root: Seq<char>, rest: Seq<char>)
    requires
        root.len() > 0,
    ensures
        is_under(root + seq!['/'] + rest, root),
        is_under(root, root),
{
    lemma_segments_join(root, rest);
}

/// Containment passes on: what lies below a path that lies below `root`
/// lies below `root`.
pub proof fn lemma_under_is_transitive(path: Seq<char>, middle: Seq<char>, root: Seq<char>)
    requires
        is_under(path, middle),
        is_under(middle, root),
    ensures
        is_under(path, root),
{
}

/// The character sequences that `parts` holds.
pub open spec fn texts(parts: Seq<Vec<char>>) -> Seq<Seq<char>> {
    Seq::new(parts.len(), |i: int| parts[i]@)
}

/// A path split into its segments, ready to be compared many times.
pub struct PathKey {
    pub absolute: bool,
    pub segments: Vec<Vec<char>>,
}

impl View for PathKey {
    type V = PathShape;

    open spec fn view(&self) -> PathShape {
        PathShape { absolute: self.absolute, segments: texts(self.segments@) }
    }
}

/// Whether `a` and `b` hold the same characters.
fn same_segment(a: &Vec<char>, b: &Vec<char>) -> (same: bool)
    ensures
        same == (a@ == b@),
{
    if a.len() != b.len() {
        return false;
    }
    let mut i: usize = 0;
    while i < a.len()
        invariant
            a.len() == b.len(),
            i <= a.len(),
            a@.subrange(0, i as int) == b@.subrange(0, i as int),
        decreases a.len() - i,
    {
        if a[i] != b[i] {
            return false;
        }
        i += 1;
    }
    proof {
        assert(a@ == a@.subrange(0, a.len() as int));
        assert(b@ == b@.subrange(0, b.len() as int));
    }
    true
}

/// Whether `segment` is empty or a single dot.
fn is_blank_segment(segment: &Vec<char>) -> (blank: bool)
    ensures
        blank == is_blank(segment@),
{
    segment.len() == 0 || (segment.len() == 1 && segment[0] == '.')
}

impl PathKey {
    /// Splits `path` into its segments.
    pub fn parse(path: &str) -> (key: PathKey)
        ensures
            key@ == shape_of(path@),
    {
        let mut closed: Vec<Vec<char>> = Vec::new();
        let mut open: Vec<char> = Vec::new();
        let mut absolute = false;
        let mut first = true;
        for c in it: path.chars()
            invariant
                it.seq() == path@,
                first == (it.index() == 0),
                absolute == (it.index() > 0 && path@[0] == '/'),
                (texts(closed@), open@) == scan(path@.subrange(0, it.index() as int)),
        {
            let ghost before = path@.subrange(0, it.index() as int);
            let ghost after = path@.subrange(0, it.index() + 1);
            proof {
                assert(after.drop_last() == before);
            }
            if c == '/' {
                if first {
                    absolute = true;
                }
                if is_blank_segment(&open) {
                    open.clear();
                } else {
                    closed.push(open);
                    open = Vec::new();
                }
            } else {
                open.push(c);
            }
            first = false;
        }
        proof {
            assert(path@.subrange(0, path@.len() as int) == path@);
        }
        if !is_blank_segment(&open) {
            let ghost old_closed = closed@;
            closed.push(open);
            proof {
                assert(texts(closed@) == texts(old_closed).push(open@));
            }
        }
        PathKey { absolute, segments: closed }
    }

    /// Whether this path is `root` or lies below it.
    pub fn is_within(&self, root: &PathKey) -> (inside: bool)
        ensures
            inside == self@.within(root@),
    {
        if self.absolute != root.absolute {
            return false;
        }
        if root.segments.len() > self.segments.len() {
            return false;
        }
        let ghost mine = texts(self.segments@);
        let ghost theirs = texts(root.segments@);
        let mut i: usize = 0;
        while i < root.segments.len()
            invariant
                root.segments.len() <= self.segments.len(),
                i <= root.segments.len(),
                mine == texts(self.segments@),
                theirs == texts(root.segments@),
                theirs.subrange(0, i as int) == mine.subrange(0, i as int),
            decreases root.segments.len() - i,
        {
            if !same_segment(&self.segments[i], &root.segments[i]) {
                proof {
                    assert(mine.subrange(0, theirs.len() as int)[i as int] != theirs[i as int]);
                }
                return false;
            }
            i += 1;
        }
        true
    }
}

} // verus!
