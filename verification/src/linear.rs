//! The resource linearizer: per-local-variable bookkeeping that turns an
//! ordered sequence of get/hedge/take/assign/mutate/erase operations into
//! a balanced set of paired equations.
//!
//! Operations accumulate pending consumers (`spaces`) and pending
//! producers (`values`); an erase closes the open epoch.  When the
//! variable's lifetime ends, whatever is still open is merged into the
//! first closed epoch — this is what lets a value produced late in a
//! stage satisfy a consumer registered earlier (feedback wiring) — and
//! each closed epoch is resolved into paired equations, fanning out or in
//! through a freshly labelled duplication fragment where one side has
//! several ports.

use vstd::prelude::*;

use crate::names::dup_name;
use crate::names::dup_string;
use crate::net::Fault;
use crate::net::Pair;
use crate::net::Tree;
use crate::net::TreeV;
use crate::net::n_ary;
use crate::net::pairs_view;
use crate::net::tree_view;
use crate::net::sp_n_ary;
use crate::net::trees_view;

verus! {

/// The open bookkeeping of one local variable: closed epochs, then the
/// pending consumers and producers of the current epoch.
pub struct LocalState {
    /// Closed epochs, oldest first: `(consumers, producers)`.
    pub past: Vec<(Vec<Tree>, Vec<Tree>)>,
    /// Pending consumers of the current value.
    pub spaces: Vec<Tree>,
    /// Pending producers supplying a value.
    pub values: Vec<Tree>,
}

/// Ghost mirror of [`LocalState`].
#[verifier::ext_equal]
pub struct LocalV {
    pub past: Seq<(Seq<TreeV>, Seq<TreeV>)>,
    pub spaces: Seq<TreeV>,
    pub values: Seq<TreeV>,
}

/// The ghost value of a sequence of epochs.
pub open spec fn epochs_view(s: Seq<(Vec<Tree>, Vec<Tree>)>) -> Seq<(Seq<TreeV>, Seq<TreeV>)> {
    s.map_values(|e: (Vec<Tree>, Vec<Tree>)| (trees_view(e.0@), trees_view(e.1@)))
}

/// The ghost value of one local's bookkeeping.
pub open spec fn local_view(l: LocalState) -> LocalV {
    LocalV {
        past: epochs_view(l.past@),
        spaces: trees_view(l.spaces@),
        values: trees_view(l.values@),
    }
}

/// A fresh local: nothing closed, nothing pending.
pub open spec fn empty_local() -> LocalV {
    LocalV {
        past: Seq::<(Seq<TreeV>, Seq<TreeV>)>::empty(),
        spaces: Seq::<TreeV>::empty(),
        values: Seq::<TreeV>::empty(),
    }
}

/// Register a pending consumer.
pub open spec fn op_get(l: LocalV, p: TreeV) -> LocalV {
    LocalV { past: l.past, spaces: l.spaces.push(p), values: l.values }
}

/// Register a pending producer.
pub open spec fn op_hedge(l: LocalV, p: TreeV) -> LocalV {
    LocalV { past: l.past, spaces: l.spaces, values: l.values.push(p) }
}

/// Close the current epoch: record the pending lists if any port is
/// pending, or if nothing has ever been closed for this variable (so an
/// explicit discard is recorded even for a variable used zero times).
pub open spec fn op_erase(l: LocalV) -> LocalV {
    if l.past.len() == 0 || l.spaces.len() > 0 || l.values.len() > 0 {
        LocalV {
            past: l.past.push((l.spaces, l.values)),
            spaces: Seq::<TreeV>::empty(),
            values: Seq::<TreeV>::empty(),
        }
    } else {
        l
    }
}

/// Consume, then close the epoch.
pub open spec fn op_take(l: LocalV, p: TreeV) -> LocalV {
    op_erase(op_get(l, p))
}

/// Discard what is pending, then start fresh with a new producer.
pub open spec fn op_assign(l: LocalV, p: TreeV) -> LocalV {
    op_hedge(op_erase(l), p)
}

/// Read the old value out through `a`, close the epoch, and register `b`
/// as the value to be supplied later.
pub open spec fn op_mutate(l: LocalV, a: TreeV, b: TreeV) -> LocalV {
    op_hedge(op_erase(op_get(l, a)), b)
}

impl LocalState {
    /// A fresh local: nothing closed, nothing pending.
    pub fn new() -> (r: LocalState)
        ensures
            local_view(r) == empty_local(),
    {
        let r = LocalState { past: Vec::new(), spaces: Vec::new(), values: Vec::new() };
        proof {
            assert(local_view(r) =~= empty_local());
        }
        r
    }

    /// Register `port` as a pending consumer of the current value.
    pub fn get(&mut self, port: Tree)
        ensures
            local_view(*final(self)) == op_get(local_view(*old(self)), tree_view(port)),
    {
        self.spaces.push(port);
        proof {
            assert(trees_view(self.spaces@) =~= trees_view(old(self).spaces@).push(
                tree_view(port),
            ));
            assert(local_view(*self) =~= op_get(local_view(*old(self)), tree_view(port)));
        }
    }

    /// Register `port` as a pending producer supplying a value.
    pub fn hedge(&mut self, port: Tree)
        ensures
            local_view(*final(self)) == op_hedge(local_view(*old(self)), tree_view(port)),
    {
        self.values.push(port);
        proof {
            assert(trees_view(self.values@) =~= trees_view(old(self).values@).push(
                tree_view(port),
            ));
            assert(local_view(*self) =~= op_hedge(local_view(*old(self)), tree_view(port)));
        }
    }

    /// Close the current epoch if any port is pending, or if no epoch was
    /// ever closed for this variable.
    pub fn erase(&mut self)
        ensures
            local_view(*final(self)) == op_erase(local_view(*old(self))),
    {
        if self.past.len() == 0 || self.spaces.len() > 0 || self.values.len() > 0 {
            let mut spaces: Vec<Tree> = Vec::new();
            let mut values: Vec<Tree> = Vec::new();
            core::mem::swap(&mut self.spaces, &mut spaces);
            core::mem::swap(&mut self.values, &mut values);
            self.past.push((spaces, values));
            proof {
                assert(epochs_view(self.past@) =~= epochs_view(old(self).past@).push(
                    (trees_view(spaces@), trees_view(values@)),
                ));
                assert(local_view(*self) =~= op_erase(local_view(*old(self))));
            }
        }
    }

    /// Consume through `port`, then close the epoch.
    pub fn take(&mut self, port: Tree)
        ensures
            local_view(*final(self)) == op_take(local_view(*old(self)), tree_view(port)),
    {
        self.get(port);
        self.erase();
    }

    /// Discard what is pending, then start fresh producing at `port`.
    pub fn assign(&mut self, port: Tree)
        ensures
            local_view(*final(self)) == op_assign(local_view(*old(self)), tree_view(port)),
    {
        self.erase();
        self.hedge(port);
    }

    /// Read the old value out through `a`, close the epoch, and register
    /// `b` as the new value to be supplied later.
    pub fn mutate(&mut self, a: Tree, b: Tree)
        ensures
            local_view(*final(self)) == op_mutate(local_view(*old(self)), tree_view(a), tree_view(
                b,
            )),
    {
        self.get(a);
        self.erase();
        self.hedge(b);
    }
}

/// The epochs resolved at a variable's end of life: the still-open lists
/// are merged into the first closed epoch (closing one first if none
/// exists), so that late producers can satisfy early consumers.
pub open spec fn merged_epochs(l: LocalV) -> Seq<(Seq<TreeV>, Seq<TreeV>)> {
    let past = if l.past.len() == 0 {
        seq![(Seq::<TreeV>::empty(), Seq::<TreeV>::empty())]
    } else {
        l.past
    };
    past.update(0, (past[0].0 + l.spaces, past[0].1 + l.values))
}

/// Whether an epoch violates the write-serialization invariant: more
/// than one pending consumer and more than one pending producer at once.
pub open spec fn epoch_conflict(spaces: Seq<TreeV>, values: Seq<TreeV>) -> bool {
    spaces.len() > 1 && values.len() > 1
}

/// Whether resolving an epoch draws a duplication label: both sides are
/// populated (even when each has exactly one port, in which case the
/// drawn label goes unused in the output).
pub open spec fn epoch_uses_label(spaces: Seq<TreeV>, values: Seq<TreeV>) -> bool {
    spaces.len() > 0 && values.len() > 0
}

/// The paired equations one non-conflicting epoch resolves to: ports on
/// an empty opposite side pair with erase leaves; otherwise the populated
/// side is fanned through a duplication fragment labelled `label` against
/// the single port of the other side.
pub open spec fn epoch_pairs(spaces: Seq<TreeV>, values: Seq<TreeV>, label: nat) -> Seq<
    (TreeV, TreeV),
> {
    if spaces.len() == 0 {
        erased_values(values)
    } else if values.len() == 0 {
        erased_spaces(spaces)
    } else if values.len() == 1 {
        seq![(sp_n_ary(dup_name(label), spaces), values[0])]
    } else {
        seq![(spaces[0], sp_n_ary(dup_name(label), values))]
    }
}

/// Resolve a list of closed epochs in order, threading the duplication
/// label counter: the paired equations of each epoch in turn, and the
/// counter after them.  A conflicting epoch is a fatal fault, as is a
/// label counter that can no longer advance.
pub open spec fn resolve_epochs(epochs: Seq<(Seq<TreeV>, Seq<TreeV>)>, labels: nat) -> Result<
    (Seq<(TreeV, TreeV)>, nat),
    Fault,
>
    decreases epochs.len(),
{
    if epochs.len() == 0 {
        Ok((Seq::<(TreeV, TreeV)>::empty(), labels))
    } else {
        let spaces = epochs[0].0;
        let values = epochs[0].1;
        if epoch_conflict(spaces, values) {
            Err(Fault::EpochConflict)
        } else if epoch_uses_label(spaces, values) && labels >= usize::MAX {
            Err(Fault::WireScope)
        } else {
            let here = epoch_pairs(spaces, values, labels);
            let labels2 = if epoch_uses_label(spaces, values) {
                (labels + 1) as nat
            } else {
                labels
            };
            match resolve_epochs(epochs.skip(1), labels2) {
                Ok(rest) => Ok((here + rest.0, rest.1)),
                Err(e) => Err(e),
            }
        }
    }
}

/// Everything the end of a variable's lifetime emits: its merged epochs
/// resolved in order, starting from label counter `labels`.
pub open spec fn finish_view(l: LocalV, labels: nat) -> Result<(Seq<(TreeV, TreeV)>, nat), Fault> {
    resolve_epochs(merged_epochs(l), labels)
}

/// Producers paired with erase leaves: produced but never consumed.
pub open spec fn erased_values(values: Seq<TreeV>) -> Seq<(TreeV, TreeV)> {
    values.map_values(|v: TreeV| (TreeV::Erase, v))
}

/// Consumers paired with erase leaves: consumed but never produced.
pub open spec fn erased_spaces(spaces: Seq<TreeV>) -> Seq<(TreeV, TreeV)> {
    spaces.map_values(|s: TreeV| (s, TreeV::Erase))
}

/// Pair every tree of `from` with an erase leaf, erase side first.
fn push_erased_values(pairs: &mut Vec<Pair>, from: &Vec<Tree>)
    ensures
        pairs_view(final(pairs)@) == pairs_view(old(pairs)@) + erased_values(trees_view(from@)),
{
    let ghost orig = trees_view(from@);
    let n = from.len();
    proof {
        assert(pairs_view(pairs@) =~= pairs_view(pairs@) + erased_values(orig.take(0)));
    }
    for i in 0..n
        invariant
            n == from@.len(),
            orig == trees_view(from@),
            pairs_view(pairs@) == pairs_view(old(pairs)@) + erased_values(orig.take(i as int)),
    {
        let v = from[i].duplicate();
        proof {
            assert(trees_view(from@)[i as int] == tree_view(from@[i as int]));
        }
        pairs.push((Tree::Erase, v));
        proof {
            let prev = pairs_view(old(pairs)@) + erased_values(orig.take(i as int));
            assert(erased_values(orig.take(i + 1)) =~= erased_values(orig.take(i as int)).push(
                (TreeV::Erase, orig[i as int]),
            ));
            assert(pairs_view(pairs@) =~= prev.push((TreeV::Erase, tree_view(v))));
            assert(pairs_view(pairs@) =~= pairs_view(old(pairs)@) + erased_values(
                orig.take(i + 1),
            ));
        }
    }
    proof {
        assert(orig.take(n as int) =~= orig);
    }
}

/// Pair every tree of `from` with an erase leaf, erase side last.
fn push_erased_spaces(pairs: &mut Vec<Pair>, from: &Vec<Tree>)
    ensures
        pairs_view(final(pairs)@) == pairs_view(old(pairs)@) + erased_spaces(trees_view(from@)),
{
    let ghost orig = trees_view(from@);
    let n = from.len();
    proof {
        assert(pairs_view(pairs@) =~= pairs_view(pairs@) + erased_spaces(orig.take(0)));
    }
    for i in 0..n
        invariant
            n == from@.len(),
            orig == trees_view(from@),
            pairs_view(pairs@) == pairs_view(old(pairs)@) + erased_spaces(orig.take(i as int)),
    {
        let s = from[i].duplicate();
        proof {
            assert(trees_view(from@)[i as int] == tree_view(from@[i as int]));
        }
        pairs.push((s, Tree::Erase));
        proof {
            let prev = pairs_view(old(pairs)@) + erased_spaces(orig.take(i as int));
            assert(erased_spaces(orig.take(i + 1)) =~= erased_spaces(orig.take(i as int)).push(
                (orig[i as int], TreeV::Erase),
            ));
            assert(pairs_view(pairs@) =~= prev.push((tree_view(s), TreeV::Erase)));
            assert(pairs_view(pairs@) =~= pairs_view(old(pairs)@) + erased_spaces(
                orig.take(i + 1),
            ));
        }
    }
    proof {
        assert(orig.take(n as int) =~= orig);
    }
}

/// Resolve the closed epochs left to right, appending their paired
/// equations and advancing the duplication label counter.
fn resolve_all(past: Vec<(Vec<Tree>, Vec<Tree>)>, pairs: &mut Vec<Pair>, labels: &mut usize) -> (r:
    Result<(), Fault>)
    ensures
        (match resolve_epochs(epochs_view(past@), *old(labels) as nat) {
            Ok(res) => r is Ok && pairs_view(final(pairs)@) == pairs_view(old(pairs)@) + res.0
                && *final(labels) as nat == res.1,
            Err(e) => r == Err::<(), Fault>(e),
        }),
    decreases past@.len(),
{
    let mut past = past;
    if past.len() == 0 {
        proof {
            assert(pairs_view(pairs@) =~= pairs_view(pairs@) + Seq::<(TreeV, TreeV)>::empty());
        }
        return Ok(());
    }
    let ghost epochs0 = epochs_view(past@);
    let (mut sp, mut va) = past.remove(0);
    proof {
        assert(epochs0[0] == (trees_view(sp@), trees_view(va@)));
        assert(epochs_view(past@) =~= epochs0.skip(1));
    }
    let ghost spv = trees_view(sp@);
    let ghost vav = trees_view(va@);
    let ghost label0 = *labels as nat;
    if sp.len() > 1 && va.len() > 1 {
        return Err(Fault::EpochConflict);
    }
    if sp.len() > 0 && va.len() > 0 && *labels == usize::MAX {
        return Err(Fault::WireScope);
    }
    if sp.len() == 0 {
        push_erased_values(pairs, &va);
    } else if va.len() == 0 {
        push_erased_spaces(pairs, &sp);
    } else if va.len() == 1 {
        let label = dup_string(*labels);
        *labels = *labels + 1;
        let tree = n_ary(label.as_str(), sp);
        let v = match va.pop() {
            Option::Some(v) => v,
            Option::None => Tree::Erase,
        };
        pairs.push((tree, v));
        proof {
            assert(tree_pair_view((tree, v)) == (sp_n_ary(dup_name(label0), spv), vav[0]));
            assert(pairs_view(pairs@) =~= pairs_view(old(pairs)@) + epoch_pairs(
                spv,
                vav,
                label0,
            ));
        }
    } else {
        let label = dup_string(*labels);
        *labels = *labels + 1;
        let tree = n_ary(label.as_str(), va);
        let s = match sp.pop() {
            Option::Some(s) => s,
            Option::None => Tree::Erase,
        };
        pairs.push((s, tree));
        proof {
            assert(spv.len() == 1);
            assert(tree_pair_view((s, tree)) == (spv[0], sp_n_ary(dup_name(label0), vav)));
            assert(pairs_view(pairs@) =~= pairs_view(old(pairs)@) + epoch_pairs(
                spv,
                vav,
                label0,
            ));
        }
    }
    let ghost mid_pairs = pairs_view(pairs@);
    let ghost mid_labels = *labels as nat;
    proof {
        assert(mid_pairs == pairs_view(old(pairs)@) + epoch_pairs(spv, vav, label0));
        assert(mid_labels == (if epoch_uses_label(spv, vav) {
            (label0 + 1) as nat
        } else {
            label0
        }));
    }
    let r = resolve_all(past, pairs, labels);
    proof {
        match resolve_epochs(epochs0.skip(1), mid_labels) {
            Ok(rest) => {
                assert(pairs_view(pairs@) =~= pairs_view(old(pairs)@) + (epoch_pairs(
                    spv,
                    vav,
                    label0,
                ) + rest.0));
            },
            Err(e) => (),
        }
    }
    r
}

/// The ghost value of one paired equation.
pub open spec fn tree_pair_view(p: Pair) -> (TreeV, TreeV) {
    (tree_view(p.0), tree_view(p.1))
}

/// Finish one local at its declaration boundary: merge the open epoch
/// into the first closed one, then resolve every closed epoch into
/// paired equations appended to `pairs`, drawing fresh duplication
/// labels from `labels`.
pub fn finish_local(local: LocalState, pairs: &mut Vec<Pair>, labels: &mut usize) -> (r: Result<
    (),
    Fault,
>)
    ensures
        (match finish_view(local_view(local), *old(labels) as nat) {
            Ok(res) => r is Ok && pairs_view(final(pairs)@) == pairs_view(old(pairs)@) + res.0
                && *final(labels) as nat == res.1,
            Err(e) => r == Err::<(), Fault>(e),
        }),
{
    let ghost l0 = local_view(local);
    let LocalState { mut past, mut spaces, mut values } = local;
    if past.len() == 0 {
        past.push((Vec::new(), Vec::new()));
    }
    let (mut fs, mut fv) = past.remove(0);
    fs.append(&mut spaces);
    fv.append(&mut values);
    past.insert(0, (fs, fv));
    proof {
        assert(trees_view(fs@) =~= (if l0.past.len() == 0 {
            Seq::<TreeV>::empty()
        } else {
            l0.past[0].0
        }) + l0.spaces);
        assert(trees_view(fv@) =~= (if l0.past.len() == 0 {
            Seq::<TreeV>::empty()
        } else {
            l0.past[0].1
        }) + l0.values);
        assert(epochs_view(past@) =~= merged_epochs(l0));
    }
    resolve_all(past, pairs, labels)
}

} // verus!
