//! What is watched, and which change events count.
//!
//! A watch target is an ordered set of root paths, observed recursively, and
//! one excluded subtree: the directory that a rebuild writes to. An event
//! that only touches the excluded subtree must not cause another rebuild,
//! or the rebuild would trigger itself without end.

use vstd::prelude::*;
use crate::paths::{is_under, shape_of, PathKey};

verus! {

/// `items` without repetitions: of equal items the first one stays, and the
/// items that stay keep their order.
pub open spec fn distinct(items: Seq<Seq<char>>) -> Seq<Seq<char>>
    decreases items.len(),
{
    if items.len() == 0 {
        Seq::empty()
    } else {
        let kept = distinct(items.drop_last());
        if kept.contains(items.last()) {
            kept
        } else {
            kept.push(items.last())
        }
    }
}

/// Whether an event that names `paths` lies wholly in the subtree of
/// `excluded`: it names at least one path, and each one is `excluded` or
/// lies below it.
pub open spec fn is_excluded(paths: Seq<Seq<char>>, excluded: Seq<char>) -> bool {
    paths.len() > 0 && forall|i: int|
        0 <= i < paths.len() ==> is_under(#[trigger] paths[i], excluded)
}

/// `distinct` drops nothing but repetitions: its result has no item twice,
/// holds exactly the items of `items`, and begins with the first of them.
pub proof fn lemma_distinct(items: Seq<Seq<char>>)
    ensures
        distinct(items).no_duplicates(),
        forall|p: Seq<char>| distinct(items).contains(p) <==> items.contains(p),
        distinct(items).len() <= items.len(),
        items.len() > 0 ==> distinct(items).len() > 0 && distinct(items)[0] == items[0],
    decreases items.len(),
{
    if items.len() > 0 {
        let front = items.drop_last();
        let kept = distinct(front);
        lemma_distinct(front);
        assert forall|p: Seq<char>| distinct(items).contains(p) <==> items.contains(p) by {
            if items.contains(p) {
                let i = choose|i: int| 0 <= i < items.len() && items[i] == p;
                if i < front.len() {
                    assert(front[i] == p);
                    assert(front.contains(p));
                    let j = choose|j: int| 0 <= j < kept.len() && kept[j] == p;
                    assert(distinct(items)[j] == p);
                } else if !kept.contains(p) {
                    assert(distinct(items)[kept.len() as int] == p);
                }
            }
            if distinct(items).contains(p) {
                let j = choose|j: int| 0 <= j < distinct(items).len() && distinct(items)[j] == p;
                if j < kept.len() {
                    assert(front.contains(p));
                }
            }
        }
    }
}

/// A change that the file system reported, with the paths it touched.
#[derive(Debug)]
pub struct ChangeEvent {
    pub paths: Vec<String>,
}

/// The mathematical content of a [`WatchTarget`].
pub struct WatchTargetView {
    pub roots: Seq<Seq<char>>,
    pub excluded: Seq<char>,
}

/// The paths to watch and the subtree whose events are ignored.
pub struct WatchTarget {
    roots: Vec<String>,
    excluded: String,
    excluded_key: PathKey,
}

impl View for WatchTarget {
    type V = WatchTargetView;

    closed spec fn view(&self) -> WatchTargetView {
        WatchTargetView { roots: self.roots.deep_view(), excluded: self.excluded@ }
    }
}

/// Whether `kept` holds a string with the text of `candidate`.
fn holds(kept: &Vec<String>, candidate: &String) -> (found: bool)
    ensures
        found == kept.deep_view().contains(candidate@),
{
    let mut i: usize = 0;
    while i < kept.len()
        invariant
            i <= kept.len(),
            forall|j: int| 0 <= j < i ==> kept.deep_view()[j] != candidate@,
        decreases kept.len() - i,
    {
        if kept[i] == *candidate {
            assert(kept.deep_view()[i as int] == candidate@);
            return true;
        }
        i += 1;
    }
    false
}

impl WatchTarget {
    #[verifier::type_invariant]
    spec fn well_formed(self) -> bool {
        &&& self.excluded_key@ == shape_of(self.excluded@)
        &&& self.roots.deep_view().no_duplicates()
        &&& self.roots.len() > 0
    }

    /// Watches `workspace_root` and then each path of `extra`, in that
    /// order and each path once, and ignores what happens below `excluded`.
    pub fn new(workspace_root: String, extra: Vec<String>, excluded: String) -> (target:
        WatchTarget)
        ensures
            target@.roots == distinct(seq![workspace_root@] + extra.deep_view()),
            target@.excluded == excluded@,
    {
        let ghost wanted = seq![workspace_root@] + extra.deep_view();
        let mut roots: Vec<String> = Vec::new();
        roots.push(workspace_root);
        proof {
            assert(wanted.subrange(0, 1) == seq![workspace_root@]);
            assert(seq![workspace_root@].drop_last() == Seq::<Seq<char>>::empty());
            assert(distinct(Seq::<Seq<char>>::empty()) == Seq::<Seq<char>>::empty());
        }
        let mut i: usize = 0;
        while i < extra.len()
            invariant
                i <= extra.len(),
                wanted == seq![workspace_root@] + extra.deep_view(),
                roots.deep_view() == distinct(wanted.subrange(0, i + 1)),
            decreases extra.len() - i,
        {
            proof {
                assert(wanted.subrange(0, i + 2).drop_last() == wanted.subrange(0, i + 1));
            }
            if !holds(&roots, &extra[i]) {
                let candidate = extra[i].clone();
                roots.push(candidate);
            }
            i += 1;
        }
        proof {
            assert(wanted.subrange(0, extra.len() + 1) == wanted);
            lemma_distinct(wanted);
        }
        let excluded_key = PathKey::parse(excluded.as_str());
        WatchTarget { roots, excluded, excluded_key }
    }

    /// The paths to watch, in the order in which to register them.
    pub fn roots(&self) -> (roots: &Vec<String>)
        ensures
            roots.deep_view() == self@.roots,
            roots.deep_view().no_duplicates(),
            roots.len() > 0,
    {
        proof {
            use_type_invariant(self);
        }
        &self.roots
    }

    /// The root of the subtree whose events are ignored.
    pub fn excluded(&self) -> (excluded: &String)
        ensures
            excluded@ == self@.excluded,
    {
        &self.excluded
    }

    /// Whether `path` is the excluded root or lies below it.
    pub fn excludes(&self, path: &str) -> (inside: bool)
        ensures
            inside == is_under(path@, self@.excluded),
    {
        proof {
            use_type_invariant(self);
        }
        PathKey::parse(path).is_within(&self.excluded_key)
    }

    /// Whether `event` calls for a rebuild: it does unless every path that
    /// it names lies in the excluded subtree. The test is the same for every
    /// kind of change; a rename, which names two paths, counts as soon as
    /// one of them lies outside.
    pub fn triggers(&self, event: &ChangeEvent) -> (wanted: bool)
        ensures
            wanted == !is_excluded(event.paths.deep_view(), self@.excluded),
    {
        if event.paths.len() == 0 {
            return true;
        }
        let mut i: usize = 0;
        while i < event.paths.len()
            invariant
                i <= event.paths.len(),
                forall|j: int|
                    0 <= j < i ==> is_under(#[trigger] event.paths.deep_view()[j], self@.excluded),
            decreases event.paths.len() - i,
        {
            if !self.excludes(event.paths[i].as_str()) {
                assert(!is_under(event.paths.deep_view()[i as int], self@.excluded));
                return true;
            }
            i += 1;
        }
        false
    }
}

} // verus!
