//! The output node language: trees, paired equations, and named networks.
//!
//! A network is a root node plus an unordered list of paired equations
//! ("redexes"), each equation binding two trees for later reduction.  The
//! tree grammar has leaves (erase, named reference, wire variable, 32-bit
//! literals), binary combinator nodes carrying a label, binary external
//! operator nodes, and ternary branch nodes.
//!
//! Contracts over trees are stated against the ghost mirror [`TreeV`], in
//! which every name is a sequence of characters, so that two trees built
//! independently compare equal whenever their structure and names agree.

use vstd::prelude::*;

verus! {

/// A graph node of an emitted network.
///
/// `F32` carries the bit pattern of a 32-bit floating-point literal; the
/// emission engine only moves such a literal from input to output, so the
/// bits are kept opaque here and interpreted by the reduction engine.
#[derive(Debug, PartialEq)]
pub enum Tree {
    /// An erase leaf: discards whatever it is paired with.
    Erase,
    /// A named reference to another network, resolved at link time.
    Global(String),
    /// A wire leaf, scoped to the one network being built.
    Var(String),
    /// A 32-bit unsigned integer literal.
    N32(u32),
    /// The bit pattern of a 32-bit floating-point literal.
    F32(u32),
    /// A binary combinator node carrying a label.
    Comb(String, Box<Tree>, Box<Tree>),
    /// A binary external-operator node: name, commutativity flag,
    /// operand, and result.
    ExtFn(String, bool, Box<Tree>, Box<Tree>),
    /// A ternary branch node.
    Branch(Box<Tree>, Box<Tree>, Box<Tree>),
}

/// Ghost mirror of [`Tree`] with names as character sequences.
#[verifier::ext_equal]
pub enum TreeV {
    Erase,
    Global(Seq<char>),
    Var(Seq<char>),
    N32(u32),
    F32(u32),
    Comb(Seq<char>, Box<TreeV>, Box<TreeV>),
    ExtFn(Seq<char>, bool, Box<TreeV>, Box<TreeV>),
    Branch(Box<TreeV>, Box<TreeV>, Box<TreeV>),
}

/// The ghost value of a tree.
pub open spec fn tree_view(t: Tree) -> TreeV
    decreases t,
{
    match t {
        Tree::Erase => TreeV::Erase,
        Tree::Global(s) => TreeV::Global(s@),
        Tree::Var(s) => TreeV::Var(s@),
        Tree::N32(n) => TreeV::N32(n),
        Tree::F32(b) => TreeV::F32(b),
        Tree::Comb(l, a, b) => TreeV::Comb(l@, Box::new(tree_view(*a)), Box::new(tree_view(*b))),
        Tree::ExtFn(f, sw, a, b) => TreeV::ExtFn(
            f@,
            sw,
            Box::new(tree_view(*a)),
            Box::new(tree_view(*b)),
        ),
        Tree::Branch(a, b, c) => TreeV::Branch(
            Box::new(tree_view(*a)),
            Box::new(tree_view(*b)),
            Box::new(tree_view(*c)),
        ),
    }
}

/// The ghost value of a sequence of trees.
pub open spec fn trees_view(s: Seq<Tree>) -> Seq<TreeV> {
    s.map_values(|t: Tree| tree_view(t))
}

/// The ghost value of a sequence of paired equations.
pub open spec fn pairs_view(s: Seq<(Tree, Tree)>) -> Seq<(TreeV, TreeV)> {
    s.map_values(|p: (Tree, Tree)| (tree_view(p.0), tree_view(p.1)))
}

/// One paired equation: two nodes to be unified during reduction.
pub type Pair = (Tree, Tree);

/// The right-nested chain of combinator nodes labelled `label` over
/// `items`: no item gives an erase leaf, a single item stands alone, and
/// more items nest as `Comb(label, first, rest)`.
pub open spec fn sp_n_ary(label: Seq<char>, items: Seq<TreeV>) -> TreeV
    decreases items.len(),
{
    if items.len() == 0 {
        TreeV::Erase
    } else if items.len() == 1 {
        items[0]
    } else {
        TreeV::Comb(label, Box::new(items[0]), Box::new(sp_n_ary(label, items.skip(1))))
    }
}

/// Build the right-nested combinator chain of `items` under `label`.
pub fn n_ary(label: &str, items: Vec<Tree>) -> (r: Tree)
    ensures
        tree_view(r) == sp_n_ary(label@, trees_view(items@)),
{
    let ghost orig = trees_view(items@);
    let mut items = items;
    if items.len() == 0 {
        return Tree::Erase;
    }
    let mut acc = match items.pop() {
        Option::Some(t) => t,
        Option::None => Tree::Erase,
    };
    proof {
        assert(orig.skip(items@.len() as int) =~= seq![tree_view(acc)]);
    }
    while items.len() > 0
        invariant
            items@.len() < orig.len(),
            orig == trees_view(items@) + orig.skip(items@.len() as int),
            tree_view(acc) == sp_n_ary(label@, orig.skip(items@.len() as int)),
        decreases items@.len(),
    {
        let ghost k = items@.len() as int;
        let x = match items.pop() {
            Option::Some(t) => t,
            Option::None => Tree::Erase,
        };
        proof {
            assert(orig[k - 1] == tree_view(x));
        }
        acc = Tree::Comb(label.to_owned(), Box::new(x), Box::new(acc));
        proof {
            assert(orig.skip(k - 1).len() >= 2);
            assert(orig.skip(k - 1)[0] == orig[k - 1]);
            assert(orig.skip(k - 1).skip(1) =~= orig.skip(k));
            assert(tree_view(acc) == sp_n_ary(label@, orig.skip(k - 1)));
            assert(orig =~= trees_view(items@) + orig.skip(items@.len() as int));
        }
    }
    proof {
        assert(orig.skip(0) =~= orig);
    }
    acc
}

impl Tree {
    /// A structurally identical copy of this tree.
    pub fn duplicate(&self) -> (r: Tree)
        ensures
            r == *self,
        decreases *self,
    {
        match self {
            Tree::Erase => Tree::Erase,
            Tree::Global(s) => Tree::Global(s.clone()),
            Tree::Var(s) => Tree::Var(s.clone()),
            Tree::N32(n) => Tree::N32(*n),
            Tree::F32(b) => Tree::F32(*b),
            Tree::Comb(l, a, b) => Tree::Comb(
                l.clone(),
                Box::new(a.duplicate()),
                Box::new(b.duplicate()),
            ),
            Tree::ExtFn(f, sw, a, b) => Tree::ExtFn(
                f.clone(),
                *sw,
                Box::new(a.duplicate()),
                Box::new(b.duplicate()),
            ),
            Tree::Branch(a, b, c) => Tree::Branch(
                Box::new(a.duplicate()),
                Box::new(b.duplicate()),
                Box::new(c.duplicate()),
            ),
        }
    }
}

/// The ghost value of concatenated equation lists.
pub proof fn lemma_pairs_view_concat(a: Seq<Pair>, b: Seq<Pair>)
    ensures
        pairs_view(a + b) == pairs_view(a) + pairs_view(b),
{
    assert(pairs_view(a + b) =~= pairs_view(a) + pairs_view(b));
}

/// Append a structurally identical copy of every equation of `from` to
/// `to`.
pub fn append_pairs(to: &mut Vec<Pair>, from: &Vec<Pair>)
    ensures
        final(to)@ == old(to)@ + from@,
{
    let n = from.len();
    for i in 0..n
        invariant
            n == from@.len(),
            to@ == old(to)@ + from@.take(i as int),
    {
        let p = (from[i].0.duplicate(), from[i].1.duplicate());
        to.push(p);
        proof {
            assert(to@ =~= old(to)@ + from@.take(i + 1));
        }
    }
    proof {
        assert(old(to)@ + from@.take(n as int) =~= old(to)@ + from@);
    }
}

/// A named network: a root node plus its paired equations.
#[derive(Debug, PartialEq)]
pub struct Net {
    pub root: Tree,
    pub pairs: Vec<Pair>,
}

/// Ghost mirror of [`Net`].
#[verifier::ext_equal]
pub struct NetV {
    pub root: TreeV,
    pub pairs: Seq<(TreeV, TreeV)>,
}

/// The ghost value of a network.
pub open spec fn net_view(n: Net) -> NetV {
    NetV { root: tree_view(n.root), pairs: pairs_view(n.pairs@) }
}

/// The collection of named networks produced by one compilation: the
/// output artifact of the emission engine.
#[derive(Debug, PartialEq)]
pub struct Nets {
    pub entries: Vec<(String, Net)>,
}

/// The ghost value of a network collection: names paired with networks,
/// in insertion order.
pub open spec fn nets_view(n: Nets) -> Seq<(Seq<char>, NetV)> {
    n.entries@.map_values(|e: (String, Net)| (e.0@, net_view(e.1)))
}

/// Whether some entry of `nets` already carries `name`.
pub open spec fn nets_contain(nets: Seq<(Seq<char>, NetV)>, name: Seq<char>) -> bool {
    exists|i: int| 0 <= i < nets.len() && nets[i].0 == name
}

/// A fatal internal-consistency failure of the emission engine.
///
/// Emission is a total function over structurally valid input; each of
/// these faults signals input that an upstream pass promised never to
/// produce.  None of them is a user-facing diagnostic, and none is
/// recoverable within the engine.
#[derive(Debug, Clone, Copy, PartialEq, Eq, Structural)]
pub enum Fault {
    /// An epoch closed with more than one pending consumer and more than
    /// one pending producer: upstream failed to serialize writes.
    EpochConflict,
    /// A wire or label counter left the range a network may address, so
    /// one network's scope would spill into a sibling's.
    WireScope,
    /// A stage, interface, local, specialization or relative-reference
    /// index pointed outside its table, or a transfer that needs carried
    /// data arrived without any.
    BrokenRef,
    /// A chain of inlined stages longer than the stage count: only a
    /// cyclic chain of single-entry unconditional interfaces does that.
    InlineLoop,
    /// Two distinct emitted networks resolved to the same name.
    NameClash,
}

impl Nets {
    /// An empty collection.
    pub fn new() -> (r: Nets)
        ensures
            nets_view(r) == Seq::<(Seq<char>, NetV)>::empty(),
    {
        let r = Nets { entries: Vec::new() };
        proof {
            assert(nets_view(r) =~= Seq::<(Seq<char>, NetV)>::empty());
        }
        r
    }

    /// Add a network under a fresh name; a name collision between two
    /// distinct networks is a fatal fault.
    pub fn insert(&mut self, name: String, net: Net) -> (r: Result<(), Fault>)
        ensures
            match r {
                Ok(()) => !nets_contain(nets_view(*old(self)), name@) && nets_view(*final(self))
                    == nets_view(*old(self)).push((name@, net_view(net))),
                Err(f) => f == Fault::NameClash && nets_contain(nets_view(*old(self)), name@)
                    && nets_view(*final(self)) == nets_view(*old(self)),
            },
    {
        let n = self.entries.len();
        for i in 0..n
            invariant
                n == self.entries.len(),
                *self == *old(self),
                forall|j: int| 0 <= j < i ==> nets_view(*self)[j].0 != name@,
        {
            if self.entries[i].0 == name {
                assert(nets_view(*self)[i as int].0 == name@);
                return Err(Fault::NameClash);
            }
        }
        self.entries.push((name, net));
        proof {
            assert(nets_view(*self) =~= nets_view(*old(self)).push((name@, net_view(net))));
        }
        Ok(())
    }
}

} // verus!
