//! The emission engine: lowers each stage of a compiled unit into a
//! named network.
//!
//! Everything the engine does is mirrored by spec functions over the
//! ghost state [`StateV`]; each executable method's contract says that
//! its result and final state equal what the mirror computes.  Emission
//! is total: structurally broken input yields a [`Fault`], never a
//! panic, and a reference that failed to resolve upstream degrades to an
//! erase leaf.

use vstd::prelude::*;
use vstd::pervasive::VecAdditionalExecFns;

use crate::linear::LocalState;
use crate::linear::LocalV;
use crate::linear::empty_local;
use crate::linear::local_view;
use crate::linear::op_assign;
use crate::linear::op_erase;
use crate::linear::op_get;
use crate::linear::op_hedge;
use crate::linear::op_mutate;
use crate::linear::op_take;
use crate::names::stage_name_v;
use crate::names::stage_string;
use crate::names::wire_name;
use crate::names::wire_string;
use crate::net::Fault;
use crate::net::Pair;
use crate::net::Tree;
use crate::net::TreeV;
use crate::net::pairs_view;
use crate::net::tree_view;
use crate::linear::finish_view;
use crate::net::n_ary;
use crate::net::sp_n_ary;
use crate::net::trees_view;
use crate::net::Net;
use crate::net::NetV;
use crate::net::append_pairs;
use crate::net::net_view;
use crate::net::nets_contain;
use crate::vir::ErrorGuaranteed;
use crate::vir::Header;
use crate::vir::Interface;
use crate::vir::InterfaceKind;
use crate::vir::Stage;
use crate::vir::Step;
use crate::vir::Transfer;
use crate::vir::Invocation;
use crate::vir::Local;
use crate::vir::Port;
use crate::vir::StageId;
use crate::vir::Usage;
use crate::vir::Vir;
use crate::vir::opt_seq;

verus! {

/// Index of a specialization among all specializations of a compilation.
pub type SpecId = usize;

/// Index of a compiled unit (function, closure, or constant).
pub type FragmentId = usize;

/// The chart of tagged-union type definitions, indexed by type id.
#[derive(Debug, Clone, PartialEq)]
pub struct Chart {
    pub enums: Vec<EnumDef>,
}

/// One tagged-union type: how many variants its ordered variant list
/// holds, which sizes every union-construction fragment.
#[derive(Debug, Clone, Copy, PartialEq, Eq, Structural)]
pub struct EnumDef {
    pub variant_count: usize,
}

/// One compiled unit's identity: its qualified path.
#[derive(Debug, Clone, PartialEq)]
pub struct Fragment {
    pub path: String,
}

/// A specialization's per-reference resolution tables: each local
/// relative reference either resolved to a concrete target or marked by
/// an already-reported error.
#[derive(Debug, Clone, PartialEq)]
pub struct Rels {
    /// Constant references: the specialization whose entry stage holds
    /// the constant.
    pub consts: Vec<Result<SpecId, ErrorGuaranteed>>,
    /// Function references: the specialization and stage to call.
    pub fns: Vec<Result<(SpecId, StageId), ErrorGuaranteed>>,
}

/// A concrete, fully resolved instantiation of a generic definition.
#[derive(Debug, Clone, PartialEq)]
pub struct Specialization {
    /// The compiled unit this specialization instantiates.
    pub fragment: FragmentId,
    /// Index among sibling specializations of the same definition.
    pub index: usize,
    /// Whether this is the sole instantiation of its definition.
    pub singular: bool,
    pub rels: Rels,
}

/// The specialization table of a whole compilation.
#[derive(Debug, Clone, PartialEq)]
pub struct Specializations {
    pub specs: Vec<Option<Specialization>>,
}

/// Whether a specialization id can be named: it is in the table, filled
/// in, and its unit's path is in the fragment table.
pub open spec fn name_ok(
    specs: Specializations,
    fragments: Vec<Fragment>,
    spec_id: SpecId,
) -> bool {
    &&& spec_id < specs.specs@.len()
    &&& specs.specs@[spec_id as int] is Some
    &&& match specs.specs@[spec_id as int] {
        Option::Some(sp) => sp.fragment < fragments@.len(),
        Option::None => false,
    }
}

/// The deterministic name of the network emitted for `stage_id` of
/// `spec_id`; meaningful when [`name_ok`] holds.
pub open spec fn sp_stage_name(
    specs: Specializations,
    fragments: Vec<Fragment>,
    spec_id: SpecId,
    stage_id: StageId,
) -> Seq<char> {
    match specs.specs@[spec_id as int] {
        Option::Some(sp) => stage_name_v(
            fragments@[sp.fragment as int].path@,
            sp.singular,
            sp.index as nat,
            stage_id as nat,
        ),
        Option::None => Seq::<char>::empty(),
    }
}

/// The read-only context one network is emitted under.
pub struct CtxV {
    pub chart: Chart,
    pub specs: Specializations,
    pub fragments: Vec<Fragment>,
    pub spec_id: SpecId,
    pub specialization: Specialization,
    pub vir: Vir,
}

/// The mutable state of one network under construction.
#[verifier::ext_equal]
pub struct StateV {
    /// Per-local bookkeeping, indexed by local; `None` for a local never
    /// touched (or already finished) in this network.
    pub locals: Seq<Option<LocalV>>,
    /// The paired equations accumulated so far.
    pub pairs: Seq<(TreeV, TreeV)>,
    /// Added to every wire reference of the stage being walked, so that
    /// inlined stages keep distinct wires.
    pub wire_offset: nat,
    /// The next fresh wire.
    pub wires: nat,
    /// The next duplication label, monotonic across the whole
    /// compilation.
    pub dup_labels: nat,
}

/// The ghost value of the per-local bookkeeping table.
pub open spec fn locals_view(ls: Seq<Option<LocalState>>) -> Seq<Option<LocalV>> {
    ls.map_values(
        |o: Option<LocalState>|
            match o {
                Option::Some(l) => Option::Some(local_view(l)),
                Option::None => Option::None,
            },
    )
}

/// The table grown with empty slots until index `local` exists.
pub open spec fn grown(locals: Seq<Option<LocalV>>, local: nat) -> Seq<Option<LocalV>> {
    if locals.len() > local {
        locals
    } else {
        locals + Seq::new((local + 1 - locals.len()) as nat, |i: int| Option::<LocalV>::None)
    }
}

/// The bookkeeping of `local`, starting fresh if never touched.
pub open spec fn local_at(locals: Seq<Option<LocalV>>, local: nat) -> LocalV {
    if local < locals.len() {
        match locals[local as int] {
            Option::Some(l) => l,
            Option::None => empty_local(),
        }
    } else {
        empty_local()
    }
}

/// The table with the bookkeeping of `local` replaced by `lv`.
pub open spec fn with_local(locals: Seq<Option<LocalV>>, local: nat, lv: LocalV) -> Seq<
    Option<LocalV>,
> {
    grown(locals, local).update(local as int, Option::Some(lv))
}

/// The state with the bookkeeping of `local` replaced by `lv`.
pub open spec fn st_local(st: StateV, local: nat, lv: LocalV) -> StateV {
    StateV { locals: with_local(st.locals, local, lv), ..st }
}

/// Whether the wire counter can no longer allocate.
pub open spec fn wires_full(st: StateV) -> bool {
    st.wires >= usize::MAX
}

/// The state after allocating one fresh wire, and that wire's leaf.
pub open spec fn sp_fresh(st: StateV) -> (StateV, TreeV) {
    (StateV { wires: st.wires + 1, ..st }, TreeV::Var(wire_name(st.wires)))
}

/// What one port lowers to: literals carry over, wires get the running
/// offset added, and a constant reference resolves through the
/// specialization table or degrades to an erase leaf if an earlier error
/// was reported for it.
pub open spec fn sp_port(ctx: CtxV, off: nat, p: Port) -> Result<TreeV, Fault> {
    match p {
        Port::Erase => Ok(TreeV::Erase),
        Port::Error(_) => Ok(TreeV::Erase),
        Port::N32(n) => Ok(TreeV::N32(n)),
        Port::F32(b) => Ok(TreeV::F32(b)),
        Port::Wire(w) => if off + w <= usize::MAX {
            Ok(TreeV::Var(wire_name((off + w) as nat)))
        } else {
            Err(Fault::WireScope)
        },
        Port::ConstRel(rel) => if rel < ctx.specialization.rels.consts@.len() {
            match ctx.specialization.rels.consts@[rel as int] {
                Ok(sid) => if name_ok(ctx.specs, ctx.fragments, sid) {
                    Ok(TreeV::Global(sp_stage_name(ctx.specs, ctx.fragments, sid, 0)))
                } else {
                    Err(Fault::BrokenRef)
                },
                Err(_) => Ok(TreeV::Erase),
            }
        } else {
            Err(Fault::BrokenRef)
        },
    }
}

/// What a list of ports lowers to, in order; the first failure wins.
pub open spec fn sp_ports(ctx: CtxV, off: nat, ports: Seq<Port>) -> Result<Seq<TreeV>, Fault>
    decreases ports.len(),
{
    if ports.len() == 0 {
        Ok(Seq::<TreeV>::empty())
    } else {
        match sp_port(ctx, off, ports[0]) {
            Ok(t) => match sp_ports(ctx, off, ports.skip(1)) {
                Ok(rest) => Ok(seq![t] + rest),
                Err(e) => Err(e),
            },
            Err(e) => Err(e),
        }
    }
}

/// What one variable operation does to the state: its ports are lowered
/// first (left to right), then the local's bookkeeping advances.
pub open spec fn sp_invoke(ctx: CtxV, st: StateV, local: Local, inv: Invocation) -> Result<
    StateV,
    Fault,
> {
    match inv {
        Invocation::Erase => Ok(
            st_local(st, local as nat, op_erase(local_at(st.locals, local as nat))),
        ),
        Invocation::Get(p) => match sp_port(ctx, st.wire_offset, p) {
            Ok(t) => Ok(st_local(st, local as nat, op_get(local_at(st.locals, local as nat), t))),
            Err(e) => Err(e),
        },
        Invocation::Hedge(p) => match sp_port(ctx, st.wire_offset, p) {
            Ok(t) => Ok(st_local(st, local as nat, op_hedge(local_at(st.locals, local as nat), t))),
            Err(e) => Err(e),
        },
        Invocation::Take(p) => match sp_port(ctx, st.wire_offset, p) {
            Ok(t) => Ok(st_local(st, local as nat, op_take(local_at(st.locals, local as nat), t))),
            Err(e) => Err(e),
        },
        Invocation::Assign(p) => match sp_port(ctx, st.wire_offset, p) {
            Ok(t) => Ok(
                st_local(st, local as nat, op_assign(local_at(st.locals, local as nat), t)),
            ),
            Err(e) => Err(e),
        },
        Invocation::Mut(a, b) => match sp_port(ctx, st.wire_offset, a) {
            Ok(ta) => match sp_port(ctx, st.wire_offset, b) {
                Ok(tb) => Ok(
                    st_local(
                        st,
                        local as nat,
                        op_mutate(local_at(st.locals, local as nat), ta, tb),
                    ),
                ),
                Err(e) => Err(e),
            },
            Err(e) => Err(e),
        },
    }
}

/// The label of boundary-crossing combinator nodes.
pub open spec fn x_label() -> Seq<char> {
    seq!['x']
}

/// The label of call fragments.
pub open spec fn fn_label() -> Seq<char> {
    seq!['f', 'n']
}

/// The label of composite (tuple) fragments.
pub open spec fn tup_label() -> Seq<char> {
    seq!['t', 'u', 'p']
}

/// The label of tagged-union fragments.
pub open spec fn enum_label() -> Seq<char> {
    seq!['e', 'n', 'u', 'm']
}

/// The label of reference-cell fragments.
pub open spec fn ref_label() -> Seq<char> {
    seq!['r', 'e', 'f']
}

/// The external operator that adds two 32-bit integers, used to extend
/// a string's running length.
pub open spec fn add_op_name() -> Seq<char> {
    seq!['n', '3', '2', '_', 'a', 'd', 'd']
}

/// The state after finishing one local: its resolved equations appended
/// and the label counter advanced.
pub open spec fn sp_finish(st: StateV, lv: LocalV) -> Result<StateV, Fault> {
    match finish_view(lv, st.dup_labels) {
        Ok(res) => Ok(StateV { pairs: st.pairs + res.0, dup_labels: res.1, ..st }),
        Err(e) => Err(e),
    }
}

/// Finish, in order, each declared local that has open bookkeeping;
/// locals never touched are skipped.
pub open spec fn sp_finish_decls(st: StateV, decls: Seq<Local>) -> Result<StateV, Fault>
    decreases decls.len(),
{
    if decls.len() == 0 {
        Ok(st)
    } else {
        let d = decls[0];
        let step = if d < st.locals.len() && st.locals[d as int] is Some {
            match st.locals[d as int] {
                Option::Some(lv) => sp_finish(
                    StateV { locals: st.locals.update(d as int, Option::None), ..st },
                    lv,
                ),
                Option::None => Ok(st),
            }
        } else {
            Ok(st)
        };
        match step {
            Ok(st1) => sp_finish_decls(st1, decls.skip(1)),
            Err(e) => Err(e),
        }
    }
}

/// Finish every local that still has open bookkeeping, in increasing
/// order of local, from slot `i` on.
pub open spec fn sp_drain(st: StateV, i: nat) -> Result<StateV, Fault>
    decreases st.locals.len() - i,
{
    if i >= st.locals.len() {
        Ok(st)
    } else {
        let step = match st.locals[i as int] {
            Option::Some(lv) => sp_finish(
                StateV { locals: st.locals.update(i as int, Option::None), ..st },
                lv,
            ),
            Option::None => Ok(st),
        };
        match step {
            Ok(st1) => sp_drain(st1, i + 1),
            Err(e) => Err(e),
        }
    }
}

/// What one boundary entry contributes: the local's bookkeeping
/// advances by the entry's usage, and all but an erased entry add one
/// boundary item (a mutated local crosses as a two-wire combinator,
/// flipped between the two sides).
pub open spec fn sp_iface_entry(
    ctx: CtxV,
    st: StateV,
    local: Local,
    u: Usage,
    side: bool,
) -> Result<(StateV, Option<TreeV>), Fault> {
    match u {
        Usage::Erase => Ok(
            (
                st_local(st, local as nat, op_erase(local_at(st.locals, local as nat))),
                Option::None,
            ),
        ),
        Usage::Mut => if wires_full(st) {
            Err(Fault::WireScope)
        } else {
            let st1 = sp_fresh(st).0;
            let a = sp_fresh(st).1;
            if wires_full(st1) {
                Err(Fault::WireScope)
            } else {
                let st2 = sp_fresh(st1).0;
                let b = sp_fresh(st1).1;
                let st3 = st_local(
                    st2,
                    local as nat,
                    op_mutate(local_at(st2.locals, local as nat), a, b),
                );
                let item = if side {
                    TreeV::Comb(x_label(), Box::new(b), Box::new(a))
                } else {
                    TreeV::Comb(x_label(), Box::new(a), Box::new(b))
                };
                Ok((st3, Option::Some(item)))
            }
        },
        Usage::Assign => if wires_full(st) {
            Err(Fault::WireScope)
        } else {
            let st1 = sp_fresh(st).0;
            let w = sp_fresh(st).1;
            Ok(
                (
                    st_local(st1, local as nat, op_assign(local_at(st1.locals, local as nat), w)),
                    Option::Some(w),
                ),
            )
        },
        Usage::Take => if wires_full(st) {
            Err(Fault::WireScope)
        } else {
            let st1 = sp_fresh(st).0;
            let w = sp_fresh(st).1;
            Ok(
                (
                    st_local(st1, local as nat, op_take(local_at(st1.locals, local as nat), w)),
                    Option::Some(w),
                ),
            )
        },
        Usage::Get => if wires_full(st) {
            Err(Fault::WireScope)
        } else {
            let st1 = sp_fresh(st).0;
            let w = sp_fresh(st).1;
            Ok(
                (
                    st_local(st1, local as nat, op_get(local_at(st1.locals, local as nat), w)),
                    Option::Some(w),
                ),
            )
        },
        Usage::Hedge => if wires_full(st) {
            Err(Fault::WireScope)
        } else {
            let st1 = sp_fresh(st).0;
            let w = sp_fresh(st).1;
            Ok(
                (
                    st_local(st1, local as nat, op_hedge(local_at(st1.locals, local as nat), w)),
                    Option::Some(w),
                ),
            )
        },
    }
}

/// The boundary items of an interface's wires, in increasing order of
/// local, taking the interior usage of each entry when `side` is false
/// and the exterior usage when it is true.
pub open spec fn sp_iface_items(
    ctx: CtxV,
    st: StateV,
    wires: Seq<(Local, (Usage, Usage))>,
    side: bool,
) -> Result<(StateV, Seq<TreeV>), Fault>
    decreases wires.len(),
{
    if wires.len() == 0 {
        Ok((st, Seq::<TreeV>::empty()))
    } else {
        let local = wires[0].0;
        let u = if side {
            wires[0].1.1
        } else {
            wires[0].1.0
        };
        match sp_iface_entry(ctx, st, local, u, side) {
            Ok(step) => match sp_iface_items(ctx, step.0, wires.skip(1), side) {
                Ok(rest) => Ok((rest.0, opt_seq(step.1) + rest.1)),
                Err(e) => Err(e),
            },
            Err(e) => Err(e),
        }
    }
}

/// An interface's boundary wiring: its items folded under the boundary
/// label.
pub open spec fn sp_interface(ctx: CtxV, st: StateV, itf: Interface, side: bool) -> Result<
    (StateV, TreeV),
    Fault,
> {
    match sp_iface_items(ctx, st, itf.wires@, side) {
        Ok(r) => Ok((r.0, sp_n_ary(x_label(), r.1))),
        Err(e) => Err(e),
    }
}

/// What a header wraps a stage's root continuation into: a match header
/// prepends the discriminant, a function header builds a call fragment
/// over parameters and result, a fork header duplicates the environment
/// through a reference cell, and a drop header discards it.
pub open spec fn sp_header(ctx: CtxV, off: nat, h: Header, root: TreeV) -> Result<TreeV, Fault> {
    match h {
        Header::Empty => Ok(root),
        Header::Match(d) => match d {
            Option::Some(p) => match sp_port(ctx, off, p) {
                Ok(t) => Ok(TreeV::Comb(enum_label(), Box::new(t), Box::new(root))),
                Err(e) => Err(e),
            },
            Option::None => Ok(root),
        },
        Header::Fn(params, ret) => match sp_ports(ctx, off, params@ + seq![ret]) {
            Ok(ts) => Ok(sp_n_ary(fn_label(), seq![root] + ts)),
            Err(e) => Err(e),
        },
        Header::Fork(former, latter) => match sp_port(ctx, off, latter) {
            Ok(lt) => match sp_port(ctx, off, former) {
                Ok(ft) => Ok(
                    sp_n_ary(
                        fn_label(),
                        seq![
                            TreeV::Erase,
                            TreeV::Comb(ref_label(), Box::new(root), Box::new(lt)),
                            ft,
                        ],
                    ),
                ),
                Err(e) => Err(e),
            },
            Err(e) => Err(e),
        },
        Header::Drop => Ok(sp_n_ary(fn_label(), seq![TreeV::Erase, root, TreeV::Erase])),
    }
}

/// The reference a call step aims at: the named network of the resolved
/// target, or an erase leaf where an earlier error was reported.
pub open spec fn sp_call_target(ctx: CtxV, rel: usize) -> Result<TreeV, Fault> {
    if rel < ctx.specialization.rels.fns@.len() {
        match ctx.specialization.rels.fns@[rel as int] {
            Ok(t) => if name_ok(ctx.specs, ctx.fragments, t.0) {
                Ok(TreeV::Global(sp_stage_name(ctx.specs, ctx.fragments, t.0, t.1)))
            } else {
                Err(Fault::BrokenRef)
            },
            Err(_) => Ok(TreeV::Erase),
        }
    } else {
        Err(Fault::BrokenRef)
    }
}

/// The named reference to one stage of the specialization being emitted.
pub open spec fn sp_stage_node(ctx: CtxV, s: StageId) -> TreeV {
    TreeV::Global(sp_stage_name(ctx.specs, ctx.fragments, ctx.spec_id, s))
}

/// The list protocol: `(length, buffer, end)` where the buffer nests the
/// elements and is terminated by the open end wire, so a consumer can
/// extend the list at the end wire without re-encoding the prefix.
pub open spec fn sp_list_tree(st: StateV, items: Seq<TreeV>) -> Result<(StateV, TreeV), Fault> {
    if items.len() > u32::MAX {
        Err(Fault::WireScope)
    } else if wires_full(st) {
        Err(Fault::WireScope)
    } else {
        let st1 = sp_fresh(st).0;
        let w = sp_fresh(st).1;
        let buf = sp_n_ary(tup_label(), items.push(w));
        Ok(
            (
                st1,
                sp_n_ary(
                    tup_label(),
                    seq![TreeV::N32(items.len() as u32), buf, w],
                ),
            ),
        )
    }
}

/// The tagged-union protocol for a value of variant `variant` out of
/// `count`: one slot per variant, the chosen slot holding the field data
/// closed by a trailing wire, every other slot an erase leaf, and the
/// trailing wire's pair as the final child.
/// One slot per variant: the chosen slot holds the field data, every
/// other an erase leaf.
pub open spec fn enum_slots(count: usize, variant: usize, inner: TreeV) -> Seq<TreeV> {
    Seq::new(
        count as nat,
        |i: int| if i == variant as int {
            inner
        } else {
            TreeV::Erase
        },
    )
}

pub open spec fn sp_enum_tree(
    st: StateV,
    count: usize,
    variant: usize,
    fields: Seq<TreeV>,
) -> Result<(StateV, TreeV), Fault> {
    if wires_full(st) {
        Err(Fault::WireScope)
    } else {
        let st1 = sp_fresh(st).0;
        let w = sp_fresh(st).1;
        let inner = sp_n_ary(enum_label(), fields.push(w));
        Ok((st1, sp_n_ary(enum_label(), enum_slots(count, variant, inner).push(w))))
    }
}

/// The character-buffer encoding of a literal: one integer node per
/// character.
pub open spec fn chars_trees(s: Seq<char>) -> Seq<TreeV> {
    s.map_values(|c: char| TreeV::N32(c as u32))
}

/// The combined character count of the interpolation segments from the
/// head of `rest` on, reduced to the 32-bit range the length literal
/// carries.
pub open spec fn segs_len32(rest: Seq<(Port, String)>) -> nat
    decreases rest.len(),
{
    if rest.len() == 0 {
        0
    } else {
        (rest[0].1@.len() + segs_len32(rest.skip(1))) % 0x1_0000_0000
    }
}

/// The constant part of a string's length literal: the literal prefix
/// plus every segment literal, in the 32-bit range.
pub open spec fn str_len32(init: Seq<char>, rest: Seq<(Port, String)>) -> nat {
    (init.len() + segs_len32(rest)) % 0x1_0000_0000
}

/// Chain the interpolated segments of a string step: each segment links
/// its value's length into the running length through an external add
/// operator and splices its literal into the running buffer, handing
/// both forward through fresh wires.
pub open spec fn sp_str_chain(
    ctx: CtxV,
    st: StateV,
    rest: Seq<(Port, String)>,
    cur_len: TreeV,
    cur_buf: TreeV,
) -> Result<(StateV, TreeV, TreeV), Fault>
    decreases rest.len(),
{
    if rest.len() == 0 {
        Ok((st, cur_len, cur_buf))
    } else {
        match sp_port(ctx, st.wire_offset, rest[0].0) {
            Ok(p) => if wires_full(st) {
                Err(Fault::WireScope)
            } else {
                let st1 = sp_fresh(st).0;
                let nl = sp_fresh(st).1;
                if wires_full(st1) {
                    Err(Fault::WireScope)
                } else {
                    let st2 = sp_fresh(st1).0;
                    let nb = sp_fresh(st1).1;
                    let item = sp_n_ary(
                        tup_label(),
                        seq![
                            TreeV::ExtFn(add_op_name(), false, Box::new(cur_len), Box::new(nl)),
                            cur_buf,
                            sp_n_ary(tup_label(), chars_trees(rest[0].1@).push(nb)),
                        ],
                    );
                    let st3 = StateV { pairs: st2.pairs.push((p, item)), ..st2 };
                    sp_str_chain(ctx, st3, rest.skip(1), nl, nb)
                }
            },
            Err(e) => Err(e),
        }
    }
}

/// Bind each named port of an inline fragment to its lowered port.
pub open spec fn sp_binds(ctx: CtxV, st: StateV, binds: Seq<(String, Port)>) -> Result<
    StateV,
    Fault,
>
    decreases binds.len(),
{
    if binds.len() == 0 {
        Ok(st)
    } else {
        match sp_port(ctx, st.wire_offset, binds[0].1) {
            Ok(p) => sp_binds(
                ctx,
                StateV { pairs: st.pairs.push((TreeV::Var(binds[0].0@), p)), ..st },
                binds.skip(1),
            ),
            Err(e) => Err(e),
        }
    }
}

/// The named references to the stages of one interface kind.
pub open spec fn sp_stage_nodes(ctx: CtxV, stages: Seq<StageId>) -> Seq<TreeV> {
    stages.map_values(|s: StageId| sp_stage_node(ctx, s))
}

/// What a call step does: the resolved target (or an erase leaf for a
/// reference with an already-reported error) is paired against a call
/// fragment over receiver, arguments and result.
pub open spec fn sp_call(
    ctx: CtxV,
    st: StateV,
    rel: usize,
    recv: Port,
    args: Seq<Port>,
    ret: Port,
) -> Result<StateV, Fault> {
    match sp_call_target(ctx, rel) {
        Ok(f) => match sp_ports(ctx, st.wire_offset, seq![recv] + args + seq![ret]) {
            Ok(ts) => Ok(StateV { pairs: st.pairs.push((f, sp_n_ary(fn_label(), ts))), ..st }),
            Err(e) => Err(e),
        },
        Err(e) => Err(e),
    }
}

/// What a tagged-union construction step does.
pub open spec fn sp_enum_step(
    ctx: CtxV,
    st: StateV,
    enum_id: usize,
    variant_id: usize,
    port: Port,
    fields: Option<Port>,
) -> Result<StateV, Fault> {
    if enum_id < ctx.chart.enums@.len() {
        match sp_port(ctx, st.wire_offset, port) {
            Ok(p) => match sp_ports(ctx, st.wire_offset, opt_seq(fields)) {
                Ok(fs) => match sp_enum_tree(
                    st,
                    ctx.chart.enums@[enum_id as int].variant_count,
                    variant_id,
                    fs,
                ) {
                    Ok(r) => Ok(StateV { pairs: r.0.pairs.push((p, r.1)), ..r.0 }),
                    Err(e) => Err(e),
                },
                Err(e) => Err(e),
            },
            Err(e) => Err(e),
        }
    } else {
        Err(Fault::BrokenRef)
    }
}

/// What a string construction step does: the whole is paired against
/// `(length, prefix buffer, end)`, the interpolated segments are
/// chained, and the final running length and buffer close the length
/// and end wires.
pub open spec fn sp_str_step(
    ctx: CtxV,
    st: StateV,
    port: Port,
    init: Seq<char>,
    rest: Seq<(Port, String)>,
) -> Result<StateV, Fault> {
    match sp_port(ctx, st.wire_offset, port) {
        Ok(p) => if wires_full(st) {
            Err(Fault::WireScope)
        } else {
            let st1 = sp_fresh(st).0;
            let wlen = sp_fresh(st).1;
            if wires_full(st1) {
                Err(Fault::WireScope)
            } else {
                let st2 = sp_fresh(st1).0;
                let wstart = sp_fresh(st1).1;
                if wires_full(st2) {
                    Err(Fault::WireScope)
                } else {
                    let st3 = sp_fresh(st2).0;
                    let wend = sp_fresh(st2).1;
                    let whole = sp_n_ary(
                        tup_label(),
                        seq![
                            wlen,
                            sp_n_ary(tup_label(), chars_trees(init).push(wstart)),
                            wend,
                        ],
                    );
                    let st4 = StateV { pairs: st3.pairs.push((p, whole)), ..st3 };
                    match sp_str_chain(
                        ctx,
                        st4,
                        rest,
                        TreeV::N32(str_len32(init, rest) as u32),
                        wstart,
                    ) {
                        Ok(r) => Ok(
                            StateV {
                                pairs: r.0.pairs.push((r.1, wlen)).push((r.2, wend)),
                                ..r.0
                            },
                        ),
                        Err(e) => Err(e),
                    }
                }
            }
        },
        Err(e) => Err(e),
    }
}

/// What an inline fragment step does: its named ports are bound, its
/// output port meets the fragment's root, and the fragment's own
/// equations join the network.
pub open spec fn sp_ivy_step(
    ctx: CtxV,
    st: StateV,
    binds: Seq<(String, Port)>,
    out: Port,
    net: Net,
) -> Result<StateV, Fault> {
    match sp_binds(ctx, st, binds) {
        Ok(st1) => match sp_port(ctx, st1.wire_offset, out) {
            Ok(po) => Ok(
                StateV {
                    pairs: st1.pairs.push((po, net_view(net).root)) + net_view(net).pairs,
                    ..st1
                },
            ),
            Err(e) => Err(e),
        },
        Err(e) => Err(e),
    }
}

/// What one step of a stage does to the network under construction.
pub open spec fn sp_step(ctx: CtxV, st: StateV, step: Step, fuel: nat) -> Result<StateV, Fault>
    decreases fuel, 2int, 0int,
{
    match step {
        Step::Invoke(local, inv) => sp_invoke(ctx, st, local, inv),
        Step::Transfer(t) => sp_transfer(ctx, st, t, fuel),
        Step::Diverge(_, _) => Err(Fault::BrokenRef),
        Step::Link(a, b) => match sp_port(ctx, st.wire_offset, a) {
            Ok(ta) => match sp_port(ctx, st.wire_offset, b) {
                Ok(tb) => Ok(StateV { pairs: st.pairs.push((ta, tb)), ..st }),
                Err(e) => Err(e),
            },
            Err(e) => Err(e),
        },
        Step::Call(rel, recv, args, ret) => sp_call(ctx, st, rel, recv, args@, ret),
        Step::Composite(port, tuple) => match sp_port(ctx, st.wire_offset, port) {
            Ok(p) => match sp_ports(ctx, st.wire_offset, tuple@) {
                Ok(ts) => Ok(
                    StateV { pairs: st.pairs.push((p, sp_n_ary(tup_label(), ts))), ..st },
                ),
                Err(e) => Err(e),
            },
            Err(e) => Err(e),
        },
        Step::Enum(enum_id, variant_id, port, fields) => sp_enum_step(
            ctx,
            st,
            enum_id,
            variant_id,
            port,
            fields,
        ),
        Step::Ref(refp, value, space) => match sp_port(ctx, st.wire_offset, refp) {
            Ok(pr) => match sp_port(ctx, st.wire_offset, value) {
                Ok(pv) => match sp_port(ctx, st.wire_offset, space) {
                    Ok(ps) => Ok(
                        StateV {
                            pairs: st.pairs.push(
                                (pr, TreeV::Comb(ref_label(), Box::new(pv), Box::new(ps))),
                            ),
                            ..st
                        },
                    ),
                    Err(e) => Err(e),
                },
                Err(e) => Err(e),
            },
            Err(e) => Err(e),
        },
        Step::ExtFn(name, swap, lhs, rhs, out) => match sp_port(ctx, st.wire_offset, lhs) {
            Ok(pl) => match sp_port(ctx, st.wire_offset, rhs) {
                Ok(pr) => match sp_port(ctx, st.wire_offset, out) {
                    Ok(po) => Ok(
                        StateV {
                            pairs: st.pairs.push(
                                (pl, TreeV::ExtFn(name@, swap, Box::new(pr), Box::new(po))),
                            ),
                            ..st
                        },
                    ),
                    Err(e) => Err(e),
                },
                Err(e) => Err(e),
            },
            Err(e) => Err(e),
        },
        Step::Dup(a, b, c) => match sp_port(ctx, st.wire_offset, a) {
            Ok(pa) => match sp_port(ctx, st.wire_offset, b) {
                Ok(pb) => match sp_port(ctx, st.wire_offset, c) {
                    Ok(pc) => if st.dup_labels >= usize::MAX {
                        Err(Fault::WireScope)
                    } else {
                        Ok(
                            StateV {
                                pairs: st.pairs.push(
                                    (
                                        pa,
                                        TreeV::Comb(
                                            crate::names::dup_name(st.dup_labels),
                                            Box::new(pb),
                                            Box::new(pc),
                                        ),
                                    ),
                                ),
                                dup_labels: st.dup_labels + 1,
                                ..st
                            },
                        )
                    },
                    Err(e) => Err(e),
                },
                Err(e) => Err(e),
            },
            Err(e) => Err(e),
        },
        Step::List(port, list) => match sp_port(ctx, st.wire_offset, port) {
            Ok(p) => match sp_ports(ctx, st.wire_offset, list@) {
                Ok(items) => match sp_list_tree(st, items) {
                    Ok(r) => Ok(StateV { pairs: r.0.pairs.push((p, r.1)), ..r.0 }),
                    Err(e) => Err(e),
                },
                Err(e) => Err(e),
            },
            Err(e) => Err(e),
        },
        Step::Str(port, init, rest) => sp_str_step(ctx, st, port, init@, rest@),
        Step::InlineIvy(binds, out, net) => sp_ivy_step(ctx, st, binds@, out, net),
    }
}

/// What the steps of a stage, from the head of `steps` on, do to the
/// network under construction.
pub open spec fn sp_steps(ctx: CtxV, st: StateV, steps: Seq<Step>, fuel: nat) -> Result<
    StateV,
    Fault,
>
    decreases fuel, 3int, steps.len(),
{
    if steps.len() == 0 {
        Ok(st)
    } else {
        match sp_step(ctx, st, steps[0], fuel) {
            Ok(st1) => sp_steps(ctx, st1, steps.skip(1), fuel),
            Err(e) => Err(e),
        }
    }
}

/// Resolve a control transfer once its target's boundary wiring stands:
/// pair the continuation against a fragment chosen by the interface
/// kind, keyed on the carried data where the kind selects a stage
/// dynamically.
pub open spec fn sp_transfer_tail(
    ctx: CtxV,
    st1: StateV,
    kind: InterfaceKind,
    data: Option<Port>,
    target: TreeV,
) -> Result<StateV, Fault> {
    match kind {
        InterfaceKind::Unconditional(s) => if name_ok(ctx.specs, ctx.fragments, ctx.spec_id) {
            Ok(StateV { pairs: st1.pairs.push((sp_stage_node(ctx, s), target)), ..st1 })
        } else {
            Err(Fault::BrokenRef)
        },
        InterfaceKind::Branch(z, nz) => match data {
            Option::Some(dp) => match sp_port(ctx, st1.wire_offset, dp) {
                Ok(pd) => if name_ok(ctx.specs, ctx.fragments, ctx.spec_id) {
                    Ok(
                        StateV {
                            pairs: st1.pairs.push(
                                (
                                    pd,
                                    TreeV::Branch(
                                        Box::new(sp_stage_node(ctx, z)),
                                        Box::new(sp_stage_node(ctx, nz)),
                                        Box::new(target),
                                    ),
                                ),
                            ),
                            ..st1
                        },
                    )
                } else {
                    Err(Fault::BrokenRef)
                },
                Err(e) => Err(e),
            },
            Option::None => Err(Fault::BrokenRef),
        },
        InterfaceKind::Match(e_id, stages) => match data {
            Option::Some(dp) => match sp_port(ctx, st1.wire_offset, dp) {
                Ok(pd) => if name_ok(ctx.specs, ctx.fragments, ctx.spec_id) {
                    Ok(
                        StateV {
                            pairs: st1.pairs.push(
                                (
                                    pd,
                                    sp_n_ary(
                                        enum_label(),
                                        sp_stage_nodes(ctx, stages@).push(target),
                                    ),
                                ),
                            ),
                            ..st1
                        },
                    )
                } else {
                    Err(Fault::BrokenRef)
                },
                Err(e) => Err(e),
            },
            Option::None => Err(Fault::BrokenRef),
        },
        InterfaceKind::Fn { call, fork, drop } => match data {
            Option::Some(dp) => match sp_port(ctx, st1.wire_offset, dp) {
                Ok(pd) => Ok(StateV { pairs: st1.pairs.push((pd, target)), ..st1 }),
                Err(e) => Err(e),
            },
            Option::None => Err(Fault::BrokenRef),
        },
    }
}

/// Resolve a control transfer: an inlinable target's stage is spliced
/// directly into the network being built; any other target pairs its
/// boundary wiring against a fragment chosen by the interface kind.
pub open spec fn sp_transfer(ctx: CtxV, st: StateV, t: Transfer, fuel: nat) -> Result<
    StateV,
    Fault,
>
    decreases fuel, 1int, 0int,
{
    if t.interface >= ctx.vir.interfaces@.len() {
        Err(Fault::BrokenRef)
    } else {
        let itf = ctx.vir.interfaces@[t.interface as int];
        if itf.id != 0 && itf.incoming == 1 && itf.kind is Unconditional {
            match itf.kind {
                InterfaceKind::Unconditional(s) => if s < ctx.vir.stages@.len() {
                    sp_inline(ctx, st, ctx.vir.stages@[s as int], fuel)
                } else {
                    Err(Fault::BrokenRef)
                },
                _ => Err(Fault::BrokenRef),
            }
        } else {
            match sp_interface(ctx, st, itf, false) {
                Ok(r) => sp_transfer_tail(ctx, r.0, itf.kind, t.data, r.1),
                Err(e) => Err(e),
            }
        }
    }
}

/// Splice an inlinable stage directly into the network being built: its
/// wires move past every wire allocated so far, its ending locals are
/// finished, its steps run, and the previous wire offset is restored.
pub open spec fn sp_inline(ctx: CtxV, st: StateV, stage: Stage, fuel: nat) -> Result<
    StateV,
    Fault,
>
    decreases fuel, 0int, 0int,
{
    if fuel == 0 {
        Err(Fault::InlineLoop)
    } else if st.wires + stage.wires > usize::MAX {
        Err(Fault::WireScope)
    } else {
        let st1 = StateV { wire_offset: st.wires, wires: (st.wires + stage.wires) as nat, ..st };
        match sp_finish_decls(st1, stage.declarations@) {
            Ok(st2) => match sp_steps(ctx, st2, stage.steps@, (fuel - 1) as nat) {
                Ok(st3) => Ok(StateV { wire_offset: st.wire_offset, ..st3 }),
                Err(e) => Err(e),
            },
            Err(e) => Err(e),
        }
    }
}

/// Walk one stage at top level: finish the locals its declarations end,
/// then run its steps.
pub open spec fn sp_stage_body(ctx: CtxV, st: StateV, stage: Stage, fuel: nat) -> Result<
    StateV,
    Fault,
> {
    match sp_finish_decls(st, stage.declarations@) {
        Ok(st1) => sp_steps(ctx, st1, stage.steps@, fuel),
        Err(e) => Err(e),
    }
}

/// The ghost value of a tree result.
pub open spec fn tree_res(r: Result<Tree, Fault>) -> Result<TreeV, Fault> {
    match r {
        Ok(t) => Ok(tree_view(t)),
        Err(e) => Err(e),
    }
}

/// A unit result paired with the state it left behind.
pub open spec fn state_res(r: Result<(), Fault>, st: StateV) -> Result<StateV, Fault> {
    match r {
        Ok(u) => Ok(st),
        Err(e) => Err(e),
    }
}

/// A tree result paired with the state it left behind.
pub open spec fn state_tree_res(r: Result<Tree, Fault>, st: StateV) -> Result<
    (StateV, TreeV),
    Fault,
> {
    match r {
        Ok(t) => Ok((st, tree_view(t))),
        Err(e) => Err(e),
    }
}

/// The emission engine for one specialization: the read-only context it
/// resolves references against, and the state of the one network under
/// construction.
pub struct VirEmitter<'a> {
    pub chart: &'a Chart,
    pub specs: &'a Specializations,
    pub fragments: &'a Vec<Fragment>,
    pub spec_id: SpecId,
    pub specialization: &'a Specialization,
    pub vir: &'a Vir,
    pub locals: Vec<Option<LocalState>>,
    pub pairs: Vec<Pair>,
    pub wire_offset: usize,
    pub wires: usize,
    pub dup_labels: usize,
}

impl<'a> VirEmitter<'a> {
    /// The read-only context.
    pub open spec fn ctx(&self) -> CtxV {
        CtxV {
            chart: *self.chart,
            specs: *self.specs,
            fragments: *self.fragments,
            spec_id: self.spec_id,
            specialization: *self.specialization,
            vir: *self.vir,
        }
    }

    /// The mutable state.
    pub open spec fn st(&self) -> StateV {
        StateV {
            locals: locals_view(self.locals@),
            pairs: pairs_view(self.pairs@),
            wire_offset: self.wire_offset as nat,
            wires: self.wires as nat,
            dup_labels: self.dup_labels as nat,
        }
    }

    /// Allocate a fresh wire: both leaves of its one connection.
    pub fn new_wire(&mut self) -> (r: Result<(Tree, Tree), Fault>)
        ensures
            final(self).ctx() == old(self).ctx(),
            (match r {
                Ok(w) => !wires_full(old(self).st()) && final(self).st() == sp_fresh(
                    old(self).st(),
                ).0 && tree_view(w.0) == sp_fresh(old(self).st()).1 && tree_view(w.1) == sp_fresh(
                    old(self).st(),
                ).1,
                Err(e) => wires_full(old(self).st()) && e == Fault::WireScope,
            }),
    {
        if self.wires >= usize::MAX {
            return Err(Fault::WireScope);
        }
        let name = wire_string(self.wires);
        let copy = name.clone();
        self.wires = self.wires + 1;
        proof {
            assert(self.st() =~= sp_fresh(old(self).st()).0);
        }
        Ok((Tree::Var(name), Tree::Var(copy)))
    }

    /// Grow the per-local table so that `local` is a valid slot.
    pub(crate) fn grow_locals(&mut self, local: Local)
        ensures
            final(self).ctx() == old(self).ctx(),
            final(self).st() == (StateV {
                locals: grown(old(self).st().locals, local as nat),
                ..old(self).st()
            }),
            final(self).locals@.len() > local,
    {
        let ghost orig = locals_view(self.locals@);
        while self.locals.len() <= local
            invariant
                grown(orig, local as nat) == grown(locals_view(self.locals@), local as nat),
                orig.len() <= locals_view(self.locals@).len(),
                self.chart == old(self).chart,
                self.specs == old(self).specs,
                self.fragments == old(self).fragments,
                self.spec_id == old(self).spec_id,
                self.specialization == old(self).specialization,
                self.vir == old(self).vir,
                self.pairs == old(self).pairs,
                self.wire_offset == old(self).wire_offset,
                self.wires == old(self).wires,
                self.dup_labels == old(self).dup_labels,
            decreases local + 1 - self.locals@.len(),
        {
            let ghost before = locals_view(self.locals@);
            self.locals.push(None);
            proof {
                assert(locals_view(self.locals@) =~= before.push(Option::<LocalV>::None));
                assert(grown(before, local as nat) =~= grown(
                    locals_view(self.locals@),
                    local as nat,
                ));
            }
        }
        proof {
            assert(grown(locals_view(self.locals@), local as nat) =~= locals_view(self.locals@));
            assert(self.st() =~= (StateV {
                locals: grown(old(self).st().locals, local as nat),
                ..old(self).st()
            }));
        }
    }

    /// Replace the bookkeeping of `local` by applying `op`-specific code:
    /// the callers below take the slot out, operate, and put it back.
    pub(crate) fn take_local(&mut self, local: Local) -> (l: LocalState)
        ensures
            final(self).ctx() == old(self).ctx(),
            final(self).locals@.len() > local,
            local_view(l) == local_at(old(self).st().locals, local as nat),
            final(self).st() == (StateV {
                locals: grown(old(self).st().locals, local as nat).update(
                    local as int,
                    Option::<LocalV>::None,
                ),
                ..old(self).st()
            }),
    {
        self.grow_locals(local);
        proof {
            let gl = locals_view(self.locals@);
            assert(gl[local as int] == (match self.locals@[local as int] {
                Option::Some(l) => Option::Some(local_view(l)),
                Option::None => Option::<LocalV>::None,
            }));
        }
        let mut slot: Option<LocalState> = None;
        self.locals.set_and_swap(local, &mut slot);
        proof {
            assert(locals_view(self.locals@) =~= grown(old(self).st().locals, local as nat).update(
                local as int,
                Option::<LocalV>::None,
            ));
            assert(self.st() =~= (StateV {
                locals: grown(old(self).st().locals, local as nat).update(
                    local as int,
                    Option::<LocalV>::None,
                ),
                ..old(self).st()
            }));
        }
        let l = match slot {
            Option::Some(l) => l,
            Option::None => LocalState::new(),
        };
        proof {
            assert(local_view(l) == local_at(old(self).st().locals, local as nat));
        }
        l
    }

    /// Whether `spec_id` can be named through this emitter's tables.
    pub fn can_name(&self, spec_id: SpecId) -> (r: bool)
        ensures
            r == name_ok(self.ctx().specs, self.ctx().fragments, spec_id),
    {
        spec_id < self.specs.specs.len() && (match &self.specs.specs[spec_id] {
            Option::Some(sp) => sp.fragment < self.fragments.len(),
            Option::None => false,
        })
    }

    /// The deterministic name of the network for `stage_id` of `spec_id`.
    pub fn stage_name(&self, spec_id: SpecId, stage_id: StageId) -> (r: String)
        requires
            name_ok(self.ctx().specs, self.ctx().fragments, spec_id),
        ensures
            r@ == sp_stage_name(self.ctx().specs, self.ctx().fragments, spec_id, stage_id),
    {
        match &self.specs.specs[spec_id] {
            Option::Some(sp) => stage_string(
                self.fragments[sp.fragment].path.as_str(),
                sp.singular,
                sp.index,
                stage_id,
            ),
            Option::None => {
                proof {
                    assert(false);
                }
                String::new()
            },
        }
    }

    /// Lower one port.
    pub fn emit_port(&self, p: &Port) -> (r: Result<Tree, Fault>)
        ensures
            tree_res(r) == sp_port(self.ctx(), self.st().wire_offset, *p),
    {
        match p {
            Port::Erase => Ok(Tree::Erase),
            Port::Error(_) => Ok(Tree::Erase),
            Port::N32(n) => Ok(Tree::N32(*n)),
            Port::F32(b) => Ok(Tree::F32(*b)),
            Port::Wire(w) => match self.wire_offset.checked_add(*w) {
                Option::Some(n) => Ok(Tree::Var(wire_string(n))),
                Option::None => Err(Fault::WireScope),
            },
            Port::ConstRel(rel) => {
                if *rel >= self.specialization.rels.consts.len() {
                    return Err(Fault::BrokenRef);
                }
                match &self.specialization.rels.consts[*rel] {
                    Ok(sid) => {
                        if self.can_name(*sid) {
                            Ok(Tree::Global(self.stage_name(*sid, 0)))
                        } else {
                            Err(Fault::BrokenRef)
                        }
                    },
                    Err(_) => Ok(Tree::Erase),
                }
            },
        }
    }

    /// Draw a fresh duplication label, unique across the compilation.
    pub(crate) fn dup_label(&mut self) -> (r: Result<String, Fault>)
        ensures
            final(self).ctx() == old(self).ctx(),
            (match r {
                Ok(s) => old(self).st().dup_labels < usize::MAX && s@ == crate::names::dup_name(
                    old(self).st().dup_labels,
                ) && final(self).st() == (StateV {
                    dup_labels: old(self).st().dup_labels + 1,
                    ..old(self).st()
                }),
                Err(e) => e == Fault::WireScope && old(self).st().dup_labels >= usize::MAX
                    && final(self).st() == old(self).st(),
            }),
    {
        if self.dup_labels >= usize::MAX {
            return Err(Fault::WireScope);
        }
        let s = crate::names::dup_string(self.dup_labels);
        self.dup_labels = self.dup_labels + 1;
        proof {
            assert(self.st() =~= (StateV {
                dup_labels: old(self).st().dup_labels + 1,
                ..old(self).st()
            }));
        }
        Ok(s)
    }

    /// Apply one variable operation, lowering its ports first.
    pub fn apply_invocation(&mut self, local: Local, inv: &Invocation) -> (r: Result<(), Fault>)
        ensures
            final(self).ctx() == old(self).ctx(),
            state_res(r, final(self).st()) == sp_invoke(old(self).ctx(), old(self).st(), local, *inv),
    {
        let ghost st0 = self.st();
        match inv {
            Invocation::Erase => {
                let mut l = self.take_local(local);
                l.erase();
                self.put_local(local, l);
                proof {
                    assert(self.st() =~= st_local(
                        st0,
                        local as nat,
                        op_erase(local_at(st0.locals, local as nat)),
                    ));
                }
                Ok(())
            },
            Invocation::Get(p) => {
                let t = self.emit_port(p)?;
                let mut l = self.take_local(local);
                l.get(t);
                self.put_local(local, l);
                proof {
                    assert(self.st() =~= st_local(
                        st0,
                        local as nat,
                        op_get(local_at(st0.locals, local as nat), tree_view(t)),
                    ));
                }
                Ok(())
            },
            Invocation::Hedge(p) => {
                let t = self.emit_port(p)?;
                let mut l = self.take_local(local);
                l.hedge(t);
                self.put_local(local, l);
                proof {
                    assert(self.st() =~= st_local(
                        st0,
                        local as nat,
                        op_hedge(local_at(st0.locals, local as nat), tree_view(t)),
                    ));
                }
                Ok(())
            },
            Invocation::Take(p) => {
                let t = self.emit_port(p)?;
                let mut l = self.take_local(local);
                l.take(t);
                self.put_local(local, l);
                proof {
                    assert(self.st() =~= st_local(
                        st0,
                        local as nat,
                        op_take(local_at(st0.locals, local as nat), tree_view(t)),
                    ));
                }
                Ok(())
            },
            Invocation::Assign(p) => {
                let t = self.emit_port(p)?;
                let mut l = self.take_local(local);
                l.assign(t);
                self.put_local(local, l);
                proof {
                    assert(self.st() =~= st_local(
                        st0,
                        local as nat,
                        op_assign(local_at(st0.locals, local as nat), tree_view(t)),
                    ));
                }
                Ok(())
            },
            Invocation::Mut(a, b) => {
                let ta = self.emit_port(a)?;
                let tb = self.emit_port(b)?;
                let mut l = self.take_local(local);
                l.mutate(ta, tb);
                self.put_local(local, l);
                proof {
                    assert(self.st() =~= st_local(
                        st0,
                        local as nat,
                        op_mutate(local_at(st0.locals, local as nat), tree_view(ta), tree_view(tb)),
                    ));
                }
                Ok(())
            },
        }
    }

    /// Put the bookkeeping of `local` back.
    pub(crate) fn put_local(&mut self, local: Local, l: LocalState)
        requires
            local < old(self).locals@.len(),
        ensures
            final(self).ctx() == old(self).ctx(),
            final(self).st() == (StateV {
                locals: locals_view(old(self).locals@).update(
                    local as int,
                    Option::Some(local_view(l)),
                ),
                ..old(self).st()
            }),
    {
        self.locals.set(local, Some(l));
        proof {
            assert(locals_view(self.locals@) =~= locals_view(old(self).locals@).update(
                local as int,
                Option::Some(local_view(l)),
            ));
            assert(self.st() =~= (StateV {
                locals: locals_view(old(self).locals@).update(
                    local as int,
                    Option::Some(local_view(l)),
                ),
                ..old(self).st()
            }));
        }
    }
}

/// The literal for [`x_label`].
pub(crate) fn lbl_x() -> (r: &'static str)
    ensures
        r@ == x_label(),
{
    proof {
        reveal_strlit("x");
        assert("x"@ =~= x_label());
    }
    "x"
}

/// The literal for [`fn_label`].
pub(crate) fn lbl_fn() -> (r: &'static str)
    ensures
        r@ == fn_label(),
{
    proof {
        reveal_strlit("fn");
        assert("fn"@ =~= fn_label());
    }
    "fn"
}

/// The literal for [`tup_label`].
pub(crate) fn lbl_tup() -> (r: &'static str)
    ensures
        r@ == tup_label(),
{
    proof {
        reveal_strlit("tup");
        assert("tup"@ =~= tup_label());
    }
    "tup"
}

/// The literal for [`enum_label`].
pub(crate) fn lbl_enum() -> (r: &'static str)
    ensures
        r@ == enum_label(),
{
    proof {
        reveal_strlit("enum");
        assert("enum"@ =~= enum_label());
    }
    "enum"
}

/// The literal for [`ref_label`].
pub(crate) fn lbl_ref() -> (r: &'static str)
    ensures
        r@ == ref_label(),
{
    proof {
        reveal_strlit("ref");
        assert("ref"@ =~= ref_label());
    }
    "ref"
}

/// The literal for [`add_op_name`].
pub(crate) fn lbl_add() -> (r: &'static str)
    ensures
        r@ == add_op_name(),
{
    proof {
        reveal_strlit("n32_add");
        assert("n32_add"@ =~= add_op_name());
    }
    "n32_add"
}

/// The ghost value of a tree-list result.
pub open spec fn trees_res(r: Result<Vec<Tree>, Fault>) -> Result<Seq<TreeV>, Fault> {
    match r {
        Ok(v) => Ok(trees_view(v@)),
        Err(e) => Err(e),
    }
}

} // verus!
