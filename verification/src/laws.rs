//! Laws of the linearizer, proved once and for all inputs.

use vstd::prelude::*;

use crate::linear::LocalV;
use crate::emit::enum_slots;
use crate::linear::empty_local;
use crate::linear::finish_view;
use crate::linear::merged_epochs;
use crate::linear::op_erase;
use crate::linear::op_get;
use crate::linear::op_hedge;
use crate::linear::op_mutate;
use crate::linear::op_take;
use crate::linear::op_assign;
use crate::net::TreeV;

verus! {

/// Consuming and closing in one operation is the same as consuming and
/// then closing: for any bookkeeping state and any subsequent
/// operations, a take leaves exactly the epoch boundaries that a get
/// followed by an erase leaves.
pub proof fn lemma_take_is_get_then_erase(l: LocalV, p: TreeV)
    ensures
        op_take(l, p) == op_erase(op_get(l, p)),
{
}

/// Assigning is discarding and then producing: for any bookkeeping
/// state, an assign leaves exactly the state an erase followed by a
/// hedge leaves.
pub proof fn lemma_assign_is_erase_then_hedge(l: LocalV, p: TreeV)
    ensures
        op_assign(l, p) == op_hedge(op_erase(l), p),
{
}

/// Mutating is reading, closing, and producing anew.
pub proof fn lemma_mutate_decomposes(l: LocalV, a: TreeV, b: TreeV)
    ensures
        op_mutate(l, a, b) == op_hedge(op_erase(op_get(l, a)), b),
{
}

/// A variable erased with zero prior operations records exactly one
/// closed epoch, with empty consumer and producer lists, and resolving
/// it emits no equation and draws no duplication label: an explicit
/// no-op discard, never a failure.
pub proof fn lemma_erase_untouched_records_empty_epoch(labels: nat)
    ensures
        op_erase(empty_local()).past == seq![
            (Seq::<TreeV>::empty(), Seq::<TreeV>::empty()),
        ],
        op_erase(empty_local()).spaces.len() == 0,
        op_erase(empty_local()).values.len() == 0,
        finish_view(op_erase(empty_local()), labels) == Ok::<_, crate::net::Fault>(
            (Seq::<(TreeV, TreeV)>::empty(), labels),
        ),
{
    let l = op_erase(empty_local());
    assert(l.past =~= seq![(Seq::<TreeV>::empty(), Seq::<TreeV>::empty())]);
    let m = merged_epochs(l);
    assert(Seq::<TreeV>::empty() + l.spaces =~= Seq::<TreeV>::empty());
    assert(Seq::<TreeV>::empty() + l.values =~= Seq::<TreeV>::empty());
    assert(m =~= seq![(Seq::<TreeV>::empty(), Seq::<TreeV>::empty())]);
    assert(m.skip(1) =~= Seq::<(Seq<TreeV>, Seq<TreeV>)>::empty());
    let here = crate::linear::epoch_pairs(m[0].0, m[0].1, labels);
    assert(crate::linear::erased_values(Seq::<TreeV>::empty()) =~= Seq::<(TreeV, TreeV)>::empty());
    assert(here =~= Seq::<(TreeV, TreeV)>::empty());
    assert(crate::linear::resolve_epochs(Seq::<(Seq<TreeV>, Seq<TreeV>)>::empty(), labels)
        == Ok::<_, crate::net::Fault>((Seq::<(TreeV, TreeV)>::empty(), labels)));
    assert(here + Seq::<(TreeV, TreeV)>::empty() =~= Seq::<(TreeV, TreeV)>::empty());
    assert(finish_view(l, labels) == Ok::<_, crate::net::Fault>(
        (Seq::<(TreeV, TreeV)>::empty(), labels),
    ));
}

/// A variable used exactly once as a get, with at most one eventual
/// producer, resolves to exactly one equation pairing the consumer port
/// directly against the producer (or an erase leaf if none), with no
/// duplication fragment introduced; the label counter advances only
/// when both sides are populated.
pub proof fn lemma_single_get_resolves_directly(g: TreeV, vs: Seq<TreeV>, labels: nat)
    requires
        vs.len() <= 1,
        labels < usize::MAX,
    ensures
        finish_view(LocalV { past: Seq::empty(), spaces: seq![g], values: vs }, labels)
            == Ok::<_, crate::net::Fault>(
            (
                seq![
                    (
                        g,
                        if vs.len() == 1 {
                            vs[0]
                        } else {
                            TreeV::Erase
                        },
                    ),
                ],
                if vs.len() == 1 {
                    labels + 1
                } else {
                    labels
                },
            ),
        ),
{
    let l = LocalV { past: Seq::empty(), spaces: seq![g], values: vs };
    let m = merged_epochs(l);
    assert(Seq::<TreeV>::empty() + seq![g] =~= seq![g]);
    assert(Seq::<TreeV>::empty() + vs =~= vs);
    assert(m =~= seq![(seq![g], vs)]);
    assert(m.skip(1) =~= Seq::<(Seq<TreeV>, Seq<TreeV>)>::empty());
    let here = crate::linear::epoch_pairs(m[0].0, m[0].1, labels);
    if vs.len() == 1 {
        assert(here =~= seq![(g, vs[0])]);
    } else {
        assert(crate::linear::erased_spaces(seq![g]) =~= seq![(g, TreeV::Erase)]);
        assert(here =~= seq![(g, TreeV::Erase)]);
    }
    assert(here + Seq::<(TreeV, TreeV)>::empty() =~= here);
    let labels2: nat = if vs.len() == 1 {
        (labels + 1) as nat
    } else {
        labels
    };
    assert(crate::linear::resolve_epochs(Seq::<(Seq<TreeV>, Seq<TreeV>)>::empty(), labels2)
        == Ok::<_, crate::net::Fault>((Seq::<(TreeV, TreeV)>::empty(), labels2)));
    assert(finish_view(l, labels) == Ok::<_, crate::net::Fault>((here, labels2)));
}

/// Routing through a tagged-union construction: the slot of the chosen
/// variant holds the field data, and every other slot holds only an
/// erase leaf, so matching cancels every non-chosen branch by erasure.
pub proof fn lemma_enum_slots_route(count: usize, variant: usize, inner: TreeV)
    requires
        variant < count,
    ensures
        enum_slots(count, variant, inner).len() == count,
        enum_slots(count, variant, inner)[variant as int] == inner,
        forall|i: int|
            0 <= i < count && i != variant ==> enum_slots(count, variant, inner)[i]
                == TreeV::Erase,
{
}

} // verus!
