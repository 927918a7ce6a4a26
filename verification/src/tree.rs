//! A tree of values, each node owning its children, with a verified count
//! of its nodes.

use vstd::prelude::*;

verus! {

/// A node of a tree; it owns a value and the subtrees under it.
pub struct TreeNode<T> {
    pub value: T,
    pub children: Vec<TreeNode<T>>,
}

impl<T> TreeNode<T> {
    /// The number of nodes of the tree rooted here: this node and every
    /// node of every subtree.
    pub open spec fn spec_count(self) -> nat
        decreases self,
    {
        1 + Self::spec_count_seq(self.children@)
    }

    /// The total number of nodes of a sequence of subtrees.
    pub open spec fn spec_count_seq(s: Seq<TreeNode<T>>) -> nat
        decreases s,
    {
        if s.len() == 0 {
            0
        } else {
            s[0].spec_count() + Self::spec_count_seq(s.drop_first())
        }
    }

    /// A leaf: a node holding `value` and no children.
    pub fn new(value: T) -> (r: TreeNode<T>)
        ensures
            r.value == value,
            r.children@ =~= Seq::<TreeNode<T>>::empty(),
            r.spec_count() == 1,
    {
        TreeNode { value, children: Vec::new() }
    }

    /// Hangs `child` under this node, after its present children.
    pub fn add_child(&mut self, child: TreeNode<T>)
        ensures
            final(self).value == old(self).value,
            final(self).children@ == old(self).children@.push(child),
            final(self).spec_count() == old(self).spec_count() + child.spec_count(),
    {
        proof {
            lemma_count_seq_push(self.children@, child);
        }
        self.children.push(child);
    }

    /// Counts the nodes of the tree rooted here.
    pub fn count_nodes(&self) -> (r: usize)
        requires
            self.spec_count() <= usize::MAX,
        ensures
            r == self.spec_count(),
        decreases *self,
    {
        let mut total: usize = 1;
        let mut i: usize = 0;
        #[verifier::loop_isolation(false)]
        while i < self.children.len()
            invariant
                0 <= i <= self.children@.len(),
                total == 1 + Self::spec_count_seq(self.children@.take(i as int)),
            decreases self.children@.len() - i,
        {
            proof {
                lemma_count_seq_take(self.children@, i as int);
                lemma_count_seq_prefix_le(self.children@, i + 1);
            }
            let c = self.children[i].count_nodes();
            total = total + c;
            i = i + 1;
        }
        proof {
            assert(self.children@.take(self.children@.len() as int) =~= self.children@);
        }
        total
    }
}

/// Appending a subtree to a sequence of subtrees adds exactly its node
/// count to the sequence's total.
proof fn lemma_count_seq_push<T>(s: Seq<TreeNode<T>>, t: TreeNode<T>)
    ensures
        TreeNode::<T>::spec_count_seq(s.push(t)) == TreeNode::<T>::spec_count_seq(s)
            + t.spec_count(),
    decreases s,
{
    if s.len() == 0 {
        assert(s.push(t)[0] == t);
        assert(s.push(t).drop_first() =~= Seq::<TreeNode<T>>::empty());
        assert(TreeNode::<T>::spec_count_seq(s.push(t)) == s.push(t)[0].spec_count()
            + TreeNode::<T>::spec_count_seq(s.push(t).drop_first()));
    } else {
        assert(s.push(t)[0] == s[0]);
        assert(s.push(t).drop_first() =~= s.drop_first().push(t));
        lemma_count_seq_push(s.drop_first(), t);
    }
}

/// Extending the counted prefix of a sequence of subtrees by one subtree
/// adds exactly that subtree's node count.
proof fn lemma_count_seq_take<T>(s: Seq<TreeNode<T>>, i: int)
    requires
        0 <= i < s.len(),
    ensures
        TreeNode::<T>::spec_count_seq(s.take(i + 1)) == TreeNode::<T>::spec_count_seq(s.take(i))
            + s[i].spec_count(),
    decreases s,
{
    assert(s.take(i + 1) =~= s.take(i).push(s[i]));
    lemma_count_seq_push(s.take(i), s[i]);
}

/// A prefix of a sequence of subtrees never counts more nodes than the
/// whole sequence.
proof fn lemma_count_seq_prefix_le<T>(s: Seq<TreeNode<T>>, i: int)
    requires
        0 <= i <= s.len(),
    ensures
        TreeNode::<T>::spec_count_seq(s.take(i)) <= TreeNode::<T>::spec_count_seq(s),
    decreases s.len() - i,
{
    if i < s.len() {
        lemma_count_seq_take(s, i);
        lemma_count_seq_prefix_le(s, i + 1);
    } else {
        assert(s.take(i) =~= s);
    }
}

} // verus!
