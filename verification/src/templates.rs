//! The immutable asteroid template forest.
//!
//! Templates are kept in an arena: a flat vector of records addressed by
//! index, where a record lists the indices of its child templates. The arena
//! is well formed when every child index points past its parent, which rules
//! out cycles and makes the pre-order traversal terminate. The spawner picks
//! uniformly from the flattened pre-order listing of the whole forest, so any
//! node — root or descendant — can appear as a freshly spawned asteroid.

use vstd::prelude::*;

use crate::math::Vec3;
use crate::math::COORD_BOUND;

verus! {

/// One immutable asteroid blueprint: how many destructive hits it takes
/// before it fragments, what it scores, where it sits relative to its parent,
/// and which templates its fragments are spawned from.
#[derive(Clone, Debug)]
pub struct Template {
    /// Number of destructive hits before this asteroid fragments.
    pub hit_points: u8,
    /// Score awarded when an asteroid of this template is destroyed.
    pub point_value: u64,
    /// Offset of this template within its parent's local frame.
    pub local_offset: Vec3,
    /// Arena indices of the child templates.
    pub children: Vec<usize>,
}

/// The template arena together with the indices of its roots.
#[derive(Clone, Debug)]
pub struct TemplateStore {
    /// All template records; children refer into this vector by index.
    pub nodes: Vec<Template>,
    /// Indices of the roots of the forest.
    pub roots: Vec<usize>,
}

impl TemplateStore {
    /// Every child index points past its parent and into the arena, every
    /// root is a valid index, and every offset fits the coordinate bound.
    pub open spec fn wf(self) -> bool {
        &&& forall|i: int, j: int|
            0 <= i < self.nodes@.len() && 0 <= j < self.nodes@[i].children@.len()
                ==> i < #[trigger] self.nodes@[i].children@[j] < self.nodes@.len()
        &&& forall|i: int|
            0 <= i < self.nodes@.len() ==> (#[trigger] self.nodes@[i]).local_offset.bounded(
                COORD_BOUND as int,
            )
        &&& forall|k: int|
            0 <= k < self.roots@.len() ==> #[trigger] self.roots@[k] < self.nodes@.len()
    }

    /// The pre-order listing of the whole forest.
    pub open spec fn flattened(self) -> Seq<usize> {
        preorder_forest(self, 0)
    }

    /// Number of templates in the arena.
    pub fn len(&self) -> (n: usize)
        ensures
            n == self.nodes@.len(),
    {
        self.nodes.len()
    }
}

impl TemplateStore {
    /// The fixed forest the game ships with: one root asteroid worth three
    /// points that takes three hits, fragmenting into two children that take
    /// two hits and one hit. Offsets are fixed-point coordinates of the
    /// children within the root's local frame.
    pub fn default_forest() -> (s: TemplateStore)
        ensures
            s.wf(),
            s.nodes@.len() == 3,
            s.roots@ == seq![0usize],
            s.nodes@[0].hit_points == 3 && s.nodes@[0].point_value == 3,
            s.nodes@[0].children@ == seq![1usize, 2usize],
            s.nodes@[1].hit_points == 2 && s.nodes@[1].point_value == 2,
            s.nodes@[1].children@ == Seq::<usize>::empty(),
            s.nodes@[2].hit_points == 1 && s.nodes@[2].point_value == 1,
            s.nodes@[2].children@ == Seq::<usize>::empty(),
    {
        let root = Template {
            hit_points: 3,
            point_value: 3,
            local_offset: Vec3 { x: 0, y: 0, z: 0 },
            children: vec![1, 2],
        };
        let first_fragment = Template {
            hit_points: 2,
            point_value: 2,
            local_offset: Vec3 { x: -76053, y: -14285, z: 4333 },
            children: Vec::new(),
        };
        let second_fragment = Template {
            hit_points: 1,
            point_value: 1,
            local_offset: Vec3 { x: 241754, y: 8164, z: 8819 },
            children: Vec::new(),
        };
        let store = TemplateStore {
            nodes: vec![root, first_fragment, second_fragment],
            roots: vec![0],
        };
        assert(store.nodes@[0].children@ =~= seq![1usize, 2usize]);
        assert(store.roots@ =~= seq![0usize]);
        store
    }
}

/// Pre-order listing of the subtree rooted at node `i`: the node itself,
/// then the listings of its children, left to right.
pub open spec fn preorder_subtree(s: TemplateStore, i: int) -> Seq<usize>
    decreases s.nodes@.len() - i, 1int, 0int,
        when s.wf() && 0 <= i < s.nodes@.len()
{
    seq![i as usize] + preorder_children(s, i, 0)
}

/// Concatenated pre-order listings of node `i`'s children from position `j` on.
pub open spec fn preorder_children(s: TemplateStore, i: int, j: int) -> Seq<usize>
    decreases s.nodes@.len() - i, 0int, s.nodes@[i].children@.len() - j,
        when s.wf() && 0 <= i < s.nodes@.len() && 0 <= j
{
    if j >= s.nodes@[i].children@.len() {
        Seq::empty()
    } else {
        preorder_subtree(s, s.nodes@[i].children@[j] as int) + preorder_children(s, i, j + 1)
    }
}

/// Concatenated pre-order listings of the roots from position `k` on.
pub open spec fn preorder_forest(s: TemplateStore, k: int) -> Seq<usize>
    decreases s.roots@.len() - k,
        when s.wf() && 0 <= k
{
    if k >= s.roots@.len() {
        Seq::empty()
    } else {
        preorder_subtree(s, s.roots@[k] as int) + preorder_forest(s, k + 1)
    }
}

/// Every index in a subtree's pre-order listing is a valid arena index.
pub proof fn lemma_preorder_subtree_valid(s: TemplateStore, i: int)
    requires
        s.wf(),
        0 <= i < s.nodes@.len(),
    ensures
        forall|k: int|
            0 <= k < preorder_subtree(s, i).len() ==> #[trigger] preorder_subtree(s, i)[k]
                < s.nodes@.len(),
    decreases s.nodes@.len() - i, 1int, 0int,
{
    lemma_preorder_children_valid(s, i, 0);
    assert forall|k: int| 0 <= k < preorder_subtree(s, i).len() implies #[trigger] preorder_subtree(
        s,
        i,
    )[k] < s.nodes@.len() by {
        if k > 0 {
            assert(preorder_subtree(s, i)[k] == preorder_children(s, i, 0)[k - 1]);
        }
    }
}

/// Every index in a children listing is a valid arena index.
pub proof fn lemma_preorder_children_valid(s: TemplateStore, i: int, j: int)
    requires
        s.wf(),
        0 <= i < s.nodes@.len(),
        0 <= j,
    ensures
        forall|k: int|
            0 <= k < preorder_children(s, i, j).len() ==> #[trigger] preorder_children(s, i, j)[k]
                < s.nodes@.len(),
    decreases s.nodes@.len() - i, 0int, s.nodes@[i].children@.len() - j,
{
    if j < s.nodes@[i].children@.len() {
        let c = s.nodes@[i].children@[j] as int;
        lemma_preorder_subtree_valid(s, c);
        lemma_preorder_children_valid(s, i, j + 1);
        assert forall|k: int| 0 <= k < preorder_children(s, i, j).len()
            implies #[trigger] preorder_children(s, i, j)[k] < s.nodes@.len() by {
            if k < preorder_subtree(s, c).len() {
                assert(preorder_children(s, i, j)[k] == preorder_subtree(s, c)[k]);
            } else {
                assert(preorder_children(s, i, j)[k] == preorder_children(s, i, j + 1)[k
                    - preorder_subtree(s, c).len()]);
            }
        }
    }
}

/// Every index in the flattened forest is a valid arena index.
pub proof fn lemma_flattened_valid(s: TemplateStore, k: int)
    requires
        s.wf(),
        0 <= k,
    ensures
        forall|m: int|
            0 <= m < preorder_forest(s, k).len() ==> #[trigger] preorder_forest(s, k)[m]
                < s.nodes@.len(),
    decreases s.roots@.len() - k,
{
    if k < s.roots@.len() {
        let r = s.roots@[k] as int;
        lemma_preorder_subtree_valid(s, r);
        lemma_flattened_valid(s, k + 1);
        assert forall|m: int| 0 <= m < preorder_forest(s, k).len()
            implies #[trigger] preorder_forest(s, k)[m] < s.nodes@.len() by {
            if m < preorder_subtree(s, r).len() {
                assert(preorder_forest(s, k)[m] == preorder_subtree(s, r)[m]);
            } else {
                assert(preorder_forest(s, k)[m] == preorder_forest(s, k + 1)[m - preorder_subtree(
                    s,
                    r,
                ).len()]);
            }
        }
    }
}

impl TemplateStore {
    /// Appends the pre-order listing of the subtree rooted at `i` to `out`.
    fn flatten_subtree(&self, i: usize, out: &mut Vec<usize>)
        requires
            self.wf(),
            i < self.nodes@.len(),
        ensures
            final(out)@ == old(out)@ + preorder_subtree(*self, i as int),
        decreases self.nodes@.len() - i,
    {
        let ghost entry = out@;
        out.push(i);
        let children = &self.nodes[i].children;
        let n = children.len();
        let mut j: usize = 0;
        while j < n
            invariant
                self.wf(),
                i < self.nodes@.len(),
                n == self.nodes@[i as int].children@.len(),
                children@ == self.nodes@[i as int].children@,
                0 <= j <= n,
                out@ + preorder_children(*self, i as int, j as int) == entry + preorder_subtree(
                    *self,
                    i as int,
                ),
            decreases n - j,
        {
            let c = children[j];
            assert(i < c < self.nodes@.len());
            self.flatten_subtree(c, out);
            proof {
                assert(out@ + preorder_children(*self, i as int, j + 1) == entry
                    + preorder_subtree(*self, i as int)) by {
                    assert(out@ + preorder_children(*self, i as int, j + 1) =~= (out@.subrange(
                        0,
                        out@.len() - preorder_subtree(*self, c as int).len(),
                    ) + preorder_children(*self, i as int, j as int)));
                }
            }
            j = j + 1;
        }
        proof {
            assert(out@ =~= out@ + preorder_children(*self, i as int, n as int));
        }
    }

    /// Flattens the forest by a pre-order traversal into the list the spawner
    /// draws templates from. Every listed index is a valid arena index.
    pub fn flatten(&self) -> (flat: Vec<usize>)
        requires
            self.wf(),
        ensures
            flat@ == self.flattened(),
            forall|m: int| 0 <= m < flat@.len() ==> #[trigger] flat@[m] < self.nodes@.len(),
    {
        let mut out: Vec<usize> = Vec::new();
        let n = self.roots.len();
        let mut k: usize = 0;
        while k < n
            invariant
                self.wf(),
                n == self.roots@.len(),
                0 <= k <= n,
                out@ + preorder_forest(*self, k as int) == preorder_forest(*self, 0),
            decreases n - k,
        {
            let r = self.roots[k];
            assert(r < self.nodes@.len());
            self.flatten_subtree(r, &mut out);
            proof {
                assert(out@ + preorder_forest(*self, k + 1) == preorder_forest(*self, 0)) by {
                    assert(out@ + preorder_forest(*self, k + 1) =~= (out@.subrange(
                        0,
                        out@.len() - preorder_subtree(*self, r as int).len(),
                    ) + preorder_forest(*self, k as int)));
                }
            }
            k = k + 1;
        }
        proof {
            assert(out@ =~= out@ + preorder_forest(*self, n as int));
            lemma_flattened_valid(*self, 0);
        }
        out
    }
}

} // verus!
