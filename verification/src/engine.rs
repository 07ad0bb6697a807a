//! The top of the emission engine: step dispatch, control-transfer
//! resolution, stage inlining, and the drivers that turn one
//! specialization and the program entry into named networks, each
//! proved against its spec mirror.

use vstd::prelude::*;

use crate::emit::Chart;
use crate::emit::CtxV;
use crate::emit::Fragment;
use crate::emit::FragmentId;
use crate::emit::SpecId;
use crate::emit::Specializations;
use crate::emit::StateV;
use crate::emit::VirEmitter;
use crate::emit::lbl_enum;
use crate::emit::lbl_ref;
use crate::emit::lbl_tup;
use crate::emit::name_ok;
use crate::emit::sp_inline;
use crate::names::dup_name;
use crate::names::path_suffix;
use crate::emit::ref_label;
use crate::emit::sp_port;
use crate::emit::sp_ports;
use crate::emit::sp_list_tree;
use crate::emit::sp_iface_entry;
use crate::emit::sp_iface_items;
use crate::emit::sp_drain;
use crate::emit::sp_stage_name;
use crate::emit::sp_header;
use crate::emit::sp_interface;
use crate::emit::sp_stage_body;
use crate::emit::sp_stage_node;
use crate::emit::sp_stage_nodes;
use crate::emit::sp_step;
use crate::emit::sp_steps;
use crate::emit::sp_transfer;
use crate::emit::sp_transfer_tail;
use crate::emit::state_res;
use crate::linear::LocalV;
use crate::net::Fault;
use crate::net::nets_contain;
use crate::net::n_ary;
use crate::net::Net;
use crate::net::Nets;
use crate::net::Tree;
use crate::net::TreeV;
use crate::net::NetV;
use crate::net::Pair;
use crate::net::nets_view;
use crate::net::pairs_view;
use crate::net::sp_n_ary;
use crate::net::tree_view;
use crate::net::trees_view;
use crate::emit::locals_view;
use crate::names::push_suffix;
use crate::vir::InterfaceKind;
use crate::vir::Local;
use crate::vir::Usage;
use crate::vir::Port;
use crate::vir::Stage;
use crate::vir::StageId;
use crate::vir::Step;
use crate::vir::Transfer;
use crate::vir::Vir;

verus! {

/// What a link step does: unify two lowered ports.
pub open spec fn sp_link_step(ctx: CtxV, st: StateV, a: Port, b: Port) -> Result<StateV, Fault> {
    match sp_port(ctx, st.wire_offset, a) {
        Ok(ta) => match sp_port(ctx, st.wire_offset, b) {
            Ok(tb) => Ok(StateV { pairs: st.pairs.push((ta, tb)), ..st }),
            Err(e) => Err(e),
        },
        Err(e) => Err(e),
    }
}

/// What a reference-cell step does.
pub open spec fn sp_ref_step(ctx: CtxV, st: StateV, refp: Port, value: Port, space: Port) -> Result<
    StateV,
    Fault,
> {
    match sp_port(ctx, st.wire_offset, refp) {
        Ok(pr) => match sp_port(ctx, st.wire_offset, value) {
            Ok(pv) => match sp_port(ctx, st.wire_offset, space) {
                Ok(ps) => Ok(
                    StateV {
                        pairs: st.pairs.push(
                            (pr, TreeV::Comb(ref_label(), Box::new(pv), Box::new(ps))),
                        ),
                        ..st
                    },
                ),
                Err(e) => Err(e),
            },
            Err(e) => Err(e),
        },
        Err(e) => Err(e),
    }
}

/// What an external-operator step does.
pub open spec fn sp_ext_step(
    ctx: CtxV,
    st: StateV,
    name: Seq<char>,
    swap: bool,
    lhs: Port,
    rhs: Port,
    out: Port,
) -> Result<StateV, Fault> {
    match sp_port(ctx, st.wire_offset, lhs) {
        Ok(pl) => match sp_port(ctx, st.wire_offset, rhs) {
            Ok(pr) => match sp_port(ctx, st.wire_offset, out) {
                Ok(po) => Ok(
                    StateV {
                        pairs: st.pairs.push(
                            (pl, TreeV::ExtFn(name, swap, Box::new(pr), Box::new(po))),
                        ),
                        ..st
                    },
                ),
                Err(e) => Err(e),
            },
            Err(e) => Err(e),
        },
        Err(e) => Err(e),
    }
}

/// What an explicit duplication step does: a fresh label fans one port
/// into two.
pub open spec fn sp_dup_step(ctx: CtxV, st: StateV, a: Port, b: Port, c: Port) -> Result<
    StateV,
    Fault,
> {
    match sp_port(ctx, st.wire_offset, a) {
        Ok(pa) => match sp_port(ctx, st.wire_offset, b) {
            Ok(pb) => match sp_port(ctx, st.wire_offset, c) {
                Ok(pc) => if st.dup_labels >= usize::MAX {
                    Err(Fault::WireScope)
                } else {
                    Ok(
                        StateV {
                            pairs: st.pairs.push(
                                (
                                    pa,
                                    TreeV::Comb(
                                        dup_name(st.dup_labels),
                                        Box::new(pb),
                                        Box::new(pc),
                                    ),
                                ),
                            ),
                            dup_labels: st.dup_labels + 1,
                            ..st
                        },
                    )
                },
                Err(e) => Err(e),
            },
            Err(e) => Err(e),
        },
        Err(e) => Err(e),
    }
}

/// What a list construction step does.
pub open spec fn sp_list_step(ctx: CtxV, st: StateV, port: Port, list: Seq<Port>) -> Result<
    StateV,
    Fault,
> {
    match sp_port(ctx, st.wire_offset, port) {
        Ok(p) => match sp_ports(ctx, st.wire_offset, list) {
            Ok(items) => match sp_list_tree(st, items) {
                Ok(r) => Ok(StateV { pairs: r.0.pairs.push((p, r.1)), ..r.0 }),
                Err(e) => Err(e),
            },
            Err(e) => Err(e),
        },
        Err(e) => Err(e),
    }
}


/// The name under which the entry point of the whole program is
/// registered.
pub open spec fn root_key() -> Seq<char> {
    seq![':', ':']
}

/// Emit the stages of one specialization, from stage `i` on: every stage
/// whose interface is targeted and not inlinable becomes one named
/// network, built from a fresh state that only carries the duplication
/// label counter forward.
pub open spec fn sp_emit_stages(
    ctx: CtxV,
    nets: Seq<(Seq<char>, NetV)>,
    labels: nat,
    i: nat,
    fuel: nat,
) -> Result<(Seq<(Seq<char>, NetV)>, nat), Fault>
    decreases ctx.vir.stages@.len() - i,
{
    if i >= ctx.vir.stages@.len() {
        Ok((nets, labels))
    } else {
        let stage = ctx.vir.stages@[i as int];
        if stage.interface >= ctx.vir.interfaces@.len() {
            Err(Fault::BrokenRef)
        } else {
            let itf = ctx.vir.interfaces@[stage.interface as int];
            if itf.incoming != 0 && !(itf.id != 0 && itf.incoming == 1
                && itf.kind is Unconditional) {
                let st0 = StateV {
                    locals: Seq::<Option<LocalV>>::empty(),
                    pairs: Seq::<(TreeV, TreeV)>::empty(),
                    wire_offset: 0,
                    wires: stage.wires as nat,
                    dup_labels: labels,
                };
                match sp_interface(ctx, st0, itf, true) {
                    Ok(ir) => match sp_header(ctx, 0, stage.header, ir.1) {
                        Ok(root) => match sp_stage_body(ctx, ir.0, stage, fuel) {
                            Ok(st2) => match sp_drain(st2, 0) {
                                Ok(st3) => if name_ok(ctx.specs, ctx.fragments, ctx.spec_id) {
                                    let name = sp_stage_name(
                                        ctx.specs,
                                        ctx.fragments,
                                        ctx.spec_id,
                                        stage.id,
                                    );
                                    if nets_contain(nets, name) {
                                        Err(Fault::NameClash)
                                    } else {
                                        sp_emit_stages(
                                            ctx,
                                            nets.push((name, NetV { root, pairs: st3.pairs })),
                                            st3.dup_labels,
                                            i + 1,
                                            fuel,
                                        )
                                    }
                                } else {
                                    Err(Fault::BrokenRef)
                                },
                                Err(e) => Err(e),
                            },
                            Err(e) => Err(e),
                        },
                        Err(e) => Err(e),
                    },
                    Err(e) => Err(e),
                }
            } else {
                sp_emit_stages(ctx, nets, labels, i + 1, fuel)
            }
        }
    }
}

/// Emit one specialization: resolve it through the tables, then emit
/// each of its unit's targeted stages, with inline-chain fuel set to the
/// unit's stage count (a longer chain must revisit a stage, which only a
/// cyclic chain does).
pub open spec fn sp_emit_spec(
    chart: Chart,
    specs: Specializations,
    fragments: Vec<Fragment>,
    virs: Vec<Vir>,
    nets: Seq<(Seq<char>, NetV)>,
    labels: nat,
    spec_id: SpecId,
) -> Result<(Seq<(Seq<char>, NetV)>, nat), Fault> {
    if spec_id >= specs.specs@.len() {
        Err(Fault::BrokenRef)
    } else {
        match specs.specs@[spec_id as int] {
            Option::None => Err(Fault::BrokenRef),
            Option::Some(sp) => if sp.fragment >= fragments@.len() {
                Err(Fault::BrokenRef)
            } else if sp.fragment >= virs@.len() {
                Err(Fault::BrokenRef)
            } else {
                let ctx = CtxV {
                    chart: chart,
                    specs: specs,
                    fragments: fragments,
                    spec_id: spec_id,
                    specialization: sp,
                    vir: virs@[sp.fragment as int],
                };
                sp_emit_stages(ctx, nets, labels, 0, ctx.vir.stages@.len())
            },
        }
    }
}

/// Register the program entry: a network named by [`root_key`] whose
/// root refers to the call stage of the main unit's outermost closure.
pub open spec fn sp_emit_main(
    fragments: Vec<Fragment>,
    virs: Vec<Vir>,
    nets: Seq<(Seq<char>, NetV)>,
    main: FragmentId,
) -> Result<Seq<(Seq<char>, NetV)>, Fault> {
    if main >= fragments@.len() {
        Err(Fault::BrokenRef)
    } else if main >= virs@.len() {
        Err(Fault::BrokenRef)
    } else {
        let vir = virs@[main as int];
        if vir.closures@.len() == 0 {
            Err(Fault::BrokenRef)
        } else {
            let func = vir.closures@.last();
            if func >= vir.interfaces@.len() {
                Err(Fault::BrokenRef)
            } else {
                match vir.interfaces@[func as int].kind {
                    InterfaceKind::Fn { call, fork, drop } => {
                        let name = fragments@[main as int].path@ + crate::names::path_suffix(
                            call as nat,
                        );
                        if nets_contain(nets, root_key()) {
                            Err(Fault::NameClash)
                        } else {
                            Ok(
                                nets.push(
                                    (
                                        root_key(),
                                        NetV {
                                            root: TreeV::Global(name),
                                            pairs: Seq::<(TreeV, TreeV)>::empty(),
                                        },
                                    ),
                                ),
                            )
                        }
                    },
                    _ => Err(Fault::BrokenRef),
                }
            }
        }
    }
}

impl<'a> VirEmitter<'a> {
    /// Pair a resolved target's boundary wiring against the fragment its
    /// interface kind chooses.
    fn emit_transfer_tail(
        &mut self,
        kind: &InterfaceKind,
        data: &Option<Port>,
        target: Tree,
    ) -> (r: Result<(), Fault>)
        ensures
            final(self).ctx() == old(self).ctx(),
            state_res(r, final(self).st()) == sp_transfer_tail(
                old(self).ctx(),
                old(self).st(),
                *kind,
                *data,
                tree_view(target),
            ),
    {
        let ghost st1 = self.st();
        match kind {
            InterfaceKind::Unconditional(s) => {
                if !self.can_name(self.spec_id) {
                    return Err(Fault::BrokenRef);
                }
                let node = Tree::Global(self.stage_name(self.spec_id, *s));
                self.pairs.push((node, target));
                proof {
                    assert(self.st() =~= (StateV {
                        pairs: st1.pairs.push(
                            (sp_stage_node(old(self).ctx(), *s), tree_view(target)),
                        ),
                        ..st1
                    }));
                }
                Ok(())
            },
            InterfaceKind::Branch(z, nz) => {
                let dp = match data {
                    Option::Some(p) => p,
                    Option::None => {
                        return Err(Fault::BrokenRef);
                    },
                };
                let pd = match self.emit_port(dp) {
                    Ok(t) => t,
                    Err(e) => {
                        return Err(e);
                    },
                };
                if !self.can_name(self.spec_id) {
                    return Err(Fault::BrokenRef);
                }
                let nodez = Tree::Global(self.stage_name(self.spec_id, *z));
                let nodenz = Tree::Global(self.stage_name(self.spec_id, *nz));
                let tree = Tree::Branch(Box::new(nodez), Box::new(nodenz), Box::new(target));
                proof {
                    assert(tree_view(nodez) == sp_stage_node(old(self).ctx(), *z));
                    assert(tree_view(nodenz) == sp_stage_node(old(self).ctx(), *nz));
                    assert(tree_view(tree) == TreeV::Branch(
                        Box::new(sp_stage_node(old(self).ctx(), *z)),
                        Box::new(sp_stage_node(old(self).ctx(), *nz)),
                        Box::new(tree_view(target)),
                    ));
                }
                self.pairs.push((pd, tree));
                proof {
                    assert(self.st() =~= (StateV {
                        pairs: st1.pairs.push((tree_view(pd), tree_view(tree))),
                        ..st1
                    }));
                }
                Ok(())
            },
            InterfaceKind::Match(e_id, stages) => {
                let dp = match data {
                    Option::Some(p) => p,
                    Option::None => {
                        return Err(Fault::BrokenRef);
                    },
                };
                let pd = match self.emit_port(dp) {
                    Ok(t) => t,
                    Err(e) => {
                        return Err(e);
                    },
                };
                if !self.can_name(self.spec_id) {
                    return Err(Fault::BrokenRef);
                }
                let mut items: Vec<Tree> = Vec::new();
                let n = stages.len();
                let ghost ctx0 = self.ctx();
                for j in 0..n
                    invariant
                        n == stages@.len(),
                        ctx0 == self.ctx(),
                        self.st() == st1,
                        name_ok(ctx0.specs, ctx0.fragments, ctx0.spec_id),
                        trees_view(items@) == sp_stage_nodes(ctx0, stages@.take(j as int)),
                {
                    let node = Tree::Global(self.stage_name(self.spec_id, stages[j]));
                    items.push(node);
                    proof {
                        assert(sp_stage_nodes(ctx0, stages@.take(j + 1)) =~= sp_stage_nodes(
                            ctx0,
                            stages@.take(j as int),
                        ).push(sp_stage_node(ctx0, stages@[j as int])));
                        assert(trees_view(items@) =~= sp_stage_nodes(
                            ctx0,
                            stages@.take(j + 1),
                        ));
                    }
                }
                items.push(target);
                proof {
                    assert(stages@.take(n as int) =~= stages@);
                    assert(sp_stage_nodes(ctx0, stages@.take(n as int)) == sp_stage_nodes(
                        ctx0,
                        stages@,
                    ));
                    assert(trees_view(items@) =~= sp_stage_nodes(ctx0, stages@).push(
                        tree_view(items@.last()),
                    ));
                }
                let tree = n_ary(lbl_enum(), items);
                self.pairs.push((pd, tree));
                proof {
                    assert(self.st() =~= (StateV {
                        pairs: st1.pairs.push((tree_view(pd), tree_view(tree))),
                        ..st1
                    }));
                }
                Ok(())
            },
            InterfaceKind::Fn { call, fork, drop } => {
                let dp = match data {
                    Option::Some(p) => p,
                    Option::None => {
                        return Err(Fault::BrokenRef);
                    },
                };
                let pd = match self.emit_port(dp) {
                    Ok(t) => t,
                    Err(e) => {
                        return Err(e);
                    },
                };
                self.pairs.push((pd, target));
                proof {
                    assert(self.st() =~= (StateV {
                        pairs: st1.pairs.push((tree_view(pd), tree_view(target))),
                        ..st1
                    }));
                }
                Ok(())
            },
        }
    }


    /// Lower a link step.
    fn emit_link_step(&mut self, a: &Port, b: &Port) -> (r: Result<(), Fault>)
        ensures
            final(self).ctx() == old(self).ctx(),
            state_res(r, final(self).st()) == sp_link_step(old(self).ctx(), old(self).st(), *a, *b),
    {
        let ghost st0 = self.st();

            let ta = match self.emit_port(a) {
                Ok(t) => t,
                Err(e) => {
                    return Err(e);
                },
            };
            let tb = match self.emit_port(b) {
                Ok(t) => t,
                Err(e) => {
                    return Err(e);
                },
            };
            self.pairs.push((ta, tb));
            proof {
                assert(self.st() =~= (StateV {
                    pairs: st0.pairs.push((tree_view(ta), tree_view(tb))),
                    ..st0
                }));
            }
            Ok(())
    }

    /// Lower a reference-cell step.
    fn emit_ref_step(&mut self, refp: &Port, value: &Port, space: &Port) -> (r: Result<(), Fault>)
        ensures
            final(self).ctx() == old(self).ctx(),
            state_res(r, final(self).st()) == sp_ref_step(
                old(self).ctx(),
                old(self).st(),
                *refp,
                *value,
                *space,
            ),
    {
        let ghost st0 = self.st();

            let pr = match self.emit_port(refp) {
                Ok(t) => t,
                Err(e) => {
                    return Err(e);
                },
            };
            let pv = match self.emit_port(value) {
                Ok(t) => t,
                Err(e) => {
                    return Err(e);
                },
            };
            let psp = match self.emit_port(space) {
                Ok(t) => t,
                Err(e) => {
                    return Err(e);
                },
            };
            let tree = Tree::Comb(lbl_ref().to_owned(), Box::new(pv), Box::new(psp));
            self.pairs.push((pr, tree));
            proof {
                assert(self.st() =~= (StateV {
                    pairs: st0.pairs.push((tree_view(pr), tree_view(tree))),
                    ..st0
                }));
            }
            Ok(())
    }

    /// Lower an external-operator step.
    fn emit_ext_step(
        &mut self,
        name: &String,
        swap: bool,
        lhs: &Port,
        rhs: &Port,
        out: &Port,
    ) -> (r: Result<(), Fault>)
        ensures
            final(self).ctx() == old(self).ctx(),
            state_res(r, final(self).st()) == sp_ext_step(
                old(self).ctx(),
                old(self).st(),
                name@,
                swap,
                *lhs,
                *rhs,
                *out,
            ),
    {
        let ghost st0 = self.st();

            let pl = match self.emit_port(lhs) {
                Ok(t) => t,
                Err(e) => {
                    return Err(e);
                },
            };
            let pr = match self.emit_port(rhs) {
                Ok(t) => t,
                Err(e) => {
                    return Err(e);
                },
            };
            let po = match self.emit_port(out) {
                Ok(t) => t,
                Err(e) => {
                    return Err(e);
                },
            };
            let tree = Tree::ExtFn(name.clone(), swap, Box::new(pr), Box::new(po));
            self.pairs.push((pl, tree));
            proof {
                assert(self.st() =~= (StateV {
                    pairs: st0.pairs.push((tree_view(pl), tree_view(tree))),
                    ..st0
                }));
            }
            Ok(())
    }

    /// Lower an explicit duplication step.
    fn emit_dup_step(&mut self, a: &Port, b: &Port, c: &Port) -> (r: Result<(), Fault>)
        ensures
            final(self).ctx() == old(self).ctx(),
            state_res(r, final(self).st()) == sp_dup_step(
                old(self).ctx(),
                old(self).st(),
                *a,
                *b,
                *c,
            ),
    {
        let ghost st0 = self.st();

            let pa = match self.emit_port(a) {
                Ok(t) => t,
                Err(e) => {
                    return Err(e);
                },
            };
            let pb = match self.emit_port(b) {
                Ok(t) => t,
                Err(e) => {
                    return Err(e);
                },
            };
            let pc = match self.emit_port(c) {
                Ok(t) => t,
                Err(e) => {
                    return Err(e);
                },
            };
            let label = match self.dup_label() {
                Ok(l) => l,
                Err(e) => {
                    return Err(e);
                },
            };
            let tree = Tree::Comb(label, Box::new(pb), Box::new(pc));
            let ghost st1 = self.st();
            self.pairs.push((pa, tree));
            proof {
                assert(self.st() =~= (StateV {
                    pairs: st1.pairs.push((tree_view(pa), tree_view(tree))),
                    ..st1
                }));
            }
            Ok(())
    }

    /// Lower a list construction step.
    fn emit_list_step(&mut self, port: &Port, list: &Vec<Port>) -> (r: Result<(), Fault>)
        ensures
            final(self).ctx() == old(self).ctx(),
            state_res(r, final(self).st()) == sp_list_step(
                old(self).ctx(),
                old(self).st(),
                *port,
                list@,
            ),
    {
        let ghost st0 = self.st();

            let p = match self.emit_port(port) {
                Ok(t) => t,
                Err(e) => {
                    return Err(e);
                },
            };
            let ts = match self.emit_ports(list) {
                Ok(ts) => ts,
                Err(e) => {
                    return Err(e);
                },
            };
            let tree = match self.emit_list(ts) {
                Ok(t) => t,
                Err(e) => {
                    return Err(e);
                },
            };
            let ghost st1 = self.st();
            self.pairs.push((p, tree));
            proof {
                assert(self.st() =~= (StateV {
                    pairs: st1.pairs.push((tree_view(p), tree_view(tree))),
                    ..st1
                }));
            }
            Ok(())
    }

    /// Lower one step of a stage.
    #[verifier::rlimit(60)]
    pub fn emit_step(&mut self, step: &Step, fuel: usize) -> (r: Result<(), Fault>)
        ensures
            final(self).ctx() == old(self).ctx(),
            state_res(r, final(self).st()) == sp_step(
                old(self).ctx(),
                old(self).st(),
                *step,
                fuel as nat,
            ),
        decreases fuel, 2int, 0int,
    {
        let ghost st0 = self.st();
        match step {
            Step::Invoke(local, inv) => self.apply_invocation(*local, inv),
            Step::Transfer(t) => self.emit_transfer(t, fuel),
            Step::Diverge(_, _) => Err(Fault::BrokenRef),
            Step::Link(a, b) => self.emit_link_step(a, b),
            Step::Call(rel, recv, args, ret) => self.emit_call_step(*rel, recv, args, ret),
            Step::Composite(port, tuple) => {
                let p = match self.emit_port(port) {
                    Ok(t) => t,
                    Err(e) => {
                        return Err(e);
                    },
                };
                let ts = match self.emit_ports(tuple) {
                    Ok(ts) => ts,
                    Err(e) => {
                        return Err(e);
                    },
                };
                let tree = n_ary(lbl_tup(), ts);
                self.pairs.push((p, tree));
                proof {
                    assert(self.st() =~= (StateV {
                        pairs: st0.pairs.push((tree_view(p), tree_view(tree))),
                        ..st0
                    }));
                }
                Ok(())
            },
            Step::Enum(enum_id, variant_id, port, fields) => self.emit_enum_step(
                *enum_id,
                *variant_id,
                port,
                fields,
            ),
            Step::Ref(refp, value, space) => self.emit_ref_step(refp, value, space),
            Step::ExtFn(name, swap, lhs, rhs, out) => self.emit_ext_step(name, *swap, lhs, rhs, out),
            Step::Dup(a, b, c) => self.emit_dup_step(a, b, c),
            Step::List(port, list) => self.emit_list_step(port, list),
            Step::Str(port, init, rest) => self.emit_str_step(port, init, rest),
            Step::InlineIvy(binds, out, net) => self.emit_ivy_step(binds, out, net),
        }
    }



    /// Lower the steps of a stage, from step `i` on.
    pub fn emit_steps(&mut self, steps: &Vec<Step>, i: usize, fuel: usize) -> (r: Result<
        (),
        Fault,
    >)
        requires
            i <= steps@.len(),
        ensures
            final(self).ctx() == old(self).ctx(),
            state_res(r, final(self).st()) == sp_steps(
                old(self).ctx(),
                old(self).st(),
                steps@.skip(i as int),
                fuel as nat,
            ),
        decreases fuel, 3int, steps@.len() - i,
    {
        if i == steps.len() {
            proof {
                assert(steps@.skip(i as int) =~= Seq::<Step>::empty());
            }
            return Ok(());
        }
        let ghost rem = steps@.skip(i as int);
        proof {
            assert(rem[0] == steps@[i as int]);
            assert(rem.skip(1) =~= steps@.skip(i + 1));
        }
        match self.emit_step(&steps[i], fuel) {
            Ok(u) => (),
            Err(e) => {
                return Err(e);
            },
        }
        self.emit_steps(steps, i + 1, fuel)
    }

    /// Resolve a control transfer into either an inlined continuation or
    /// a reference to a named network, chosen by the interface kind.
    pub fn emit_transfer(&mut self, transfer: &Transfer, fuel: usize) -> (r: Result<(), Fault>)
        ensures
            final(self).ctx() == old(self).ctx(),
            state_res(r, final(self).st()) == sp_transfer(
                old(self).ctx(),
                old(self).st(),
                *transfer,
                fuel as nat,
            ),
        decreases fuel, 1int, 0int,
    {
        let vir = self.vir;
        if transfer.interface >= vir.interfaces.len() {
            return Err(Fault::BrokenRef);
        }
        let itf = &vir.interfaces[transfer.interface];
        if itf.inline() {
            match &itf.kind {
                InterfaceKind::Unconditional(s) => {
                    if *s >= vir.stages.len() {
                        return Err(Fault::BrokenRef);
                    }
                    self.inline_stage(&vir.stages[*s], fuel)
                },
                _ => {
                    proof {
                        assert(false);
                    }
                    Err(Fault::BrokenRef)
                },
            }
        } else {
            let target = match self.emit_interface(itf, false) {
                Ok(t) => t,
                Err(e) => {
                    return Err(e);
                },
            };
            self.emit_transfer_tail(&itf.kind, &transfer.data, target)
        }
    }


    /// Splice an inlinable stage directly into the network being built.
    pub fn inline_stage(&mut self, stage: &Stage, fuel: usize) -> (r: Result<(), Fault>)
        ensures
            final(self).ctx() == old(self).ctx(),
            state_res(r, final(self).st()) == sp_inline(
                old(self).ctx(),
                old(self).st(),
                *stage,
                fuel as nat,
            ),
        decreases fuel, 0int, 0int,
    {
        if fuel == 0 {
            return Err(Fault::InlineLoop);
        }
        let nw = match self.wires.checked_add(stage.wires) {
            Option::Some(n) => n,
            Option::None => {
                return Err(Fault::WireScope);
            },
        };
        let prev = self.wire_offset;
        self.wire_offset = self.wires;
        self.wires = nw;
        let ghost st1 = self.st();
        proof {
            assert(st1 =~= (StateV {
                wire_offset: old(self).st().wires,
                wires: (old(self).st().wires + stage.wires) as nat,
                ..old(self).st()
            }));
            assert(stage.declarations@.skip(0) =~= stage.declarations@);
        }
        match self.finish_decls(&stage.declarations, 0) {
            Ok(u) => (),
            Err(e) => {
                return Err(e);
            },
        }
        proof {
            assert(stage.steps@.skip(0) =~= stage.steps@);
        }
        match self.emit_steps(&stage.steps, 0, fuel - 1) {
            Ok(u) => (),
            Err(e) => {
                return Err(e);
            },
        }
        let ghost st3 = self.st();
        self.wire_offset = prev;
        proof {
            assert(self.st() =~= (StateV { wire_offset: old(self).st().wire_offset, ..st3 }));
        }
        Ok(())
    }


    /// Walk one stage at top level: finish the locals its declarations
    /// end, then lower its steps.
    pub fn emit_stage_body(&mut self, stage: &Stage, fuel: usize) -> (r: Result<(), Fault>)
        ensures
            final(self).ctx() == old(self).ctx(),
            state_res(r, final(self).st()) == sp_stage_body(
                old(self).ctx(),
                old(self).st(),
                *stage,
                fuel as nat,
            ),
    {
        proof {
            assert(stage.declarations@.skip(0) =~= stage.declarations@);
        }
        match self.finish_decls(&stage.declarations, 0) {
            Ok(u) => (),
            Err(e) => {
                return Err(e);
            },
        }
        proof {
            assert(stage.steps@.skip(0) =~= stage.steps@);
        }
        self.emit_steps(&stage.steps, 0, fuel)
    }

}

/// Boundary wiring leaves the running wire offset where it was: only an
/// inlined stage moves it, and it restores it before returning.
pub proof fn lemma_iface_items_keep_offset(
    ctx: CtxV,
    st: StateV,
    wires: Seq<(Local, (Usage, Usage))>,
    side: bool,
)
    ensures
        (match sp_iface_items(ctx, st, wires, side) {
            Ok(r) => r.0.wire_offset == st.wire_offset,
            Err(e) => true,
        }),
    decreases wires.len(),
{
    if wires.len() > 0 {
        let local = wires[0].0;
        let u = if side {
            wires[0].1.1
        } else {
            wires[0].1.0
        };
        match sp_iface_entry(ctx, st, local, u, side) {
            Ok(step) => {
                lemma_iface_items_keep_offset(ctx, step.0, wires.skip(1), side);
            },
            Err(e) => (),
        }
    }
}

/// Emit every targeted, non-inlinable stage of one specialization as a
/// named network, threading the duplication-label counter through and
/// inserting each network under its deterministic name.
pub fn emit_spec(
    chart: &Chart,
    specs: &Specializations,
    fragments: &Vec<Fragment>,
    virs: &Vec<Vir>,
    nets: &mut Nets,
    labels: &mut usize,
    spec_id: SpecId,
) -> (r: Result<(), Fault>)
    ensures
        (match sp_emit_spec(
            *chart,
            *specs,
            *fragments,
            *virs,
            nets_view(*old(nets)),
            *old(labels) as nat,
            spec_id,
        ) {
            Ok(res) => r is Ok && nets_view(*final(nets)) == res.0 && *final(labels) as nat
                == res.1,
            Err(e) => r == Err::<(), Fault>(e),
        }),
{
    if spec_id >= specs.specs.len() {
        return Err(Fault::BrokenRef);
    }
    let sp = match &specs.specs[spec_id] {
        Option::Some(sp) => sp,
        Option::None => {
            return Err(Fault::BrokenRef);
        },
    };
    if sp.fragment >= fragments.len() {
        return Err(Fault::BrokenRef);
    }
    if sp.fragment >= virs.len() {
        return Err(Fault::BrokenRef);
    }
    let vir = &virs[sp.fragment];
    let fuel = vir.stages.len();
    let mut em = VirEmitter {
        chart,
        specs,
        fragments,
        spec_id,
        specialization: sp,
        vir,
        locals: Vec::new(),
        pairs: Vec::new(),
        wire_offset: 0,
        wires: 0,
        dup_labels: *labels,
    };
    let ghost ctx0 = em.ctx();
    let n = vir.stages.len();
    proof {
        assert(locals_view(em.locals@) =~= Seq::<Option<crate::linear::LocalV>>::empty());
        assert(pairs_view(em.pairs@) =~= Seq::<(TreeV, TreeV)>::empty());
        assert(sp_emit_spec(
            *chart,
            *specs,
            *fragments,
            *virs,
            nets_view(*nets),
            *labels as nat,
            spec_id,
        ) == sp_emit_stages(ctx0, nets_view(*nets), *labels as nat, 0, fuel as nat));
    }
    for i in 0..n
        invariant
            sp_emit_spec(
                *chart,
                *specs,
                *fragments,
                *virs,
                nets_view(*old(nets)),
                *old(labels) as nat,
                spec_id,
            ) == sp_emit_stages(
                ctx0,
                nets_view(*old(nets)),
                *old(labels) as nat,
                0,
                fuel as nat,
            ),
            n == vir.stages@.len(),
            n == fuel,
            ctx0 == em.ctx(),
            ctx0.vir == *vir,
            ctx0.spec_id == spec_id,
            em.vir == vir,
            em.spec_id == spec_id,
            locals_view(em.locals@) == Seq::<Option<crate::linear::LocalV>>::empty(),
            pairs_view(em.pairs@) == Seq::<(TreeV, TreeV)>::empty(),
            (match sp_emit_stages(
                ctx0,
                nets_view(*nets),
                em.dup_labels as nat,
                i as nat,
                fuel as nat,
            ) {
                Ok(res) => sp_emit_stages(
                    ctx0,
                    nets_view(*old(nets)),
                    *old(labels) as nat,
                    0,
                    fuel as nat,
                ) == Ok::<(Seq<(Seq<char>, NetV)>, nat), Fault>(res),
                Err(e) => sp_emit_stages(
                    ctx0,
                    nets_view(*old(nets)),
                    *old(labels) as nat,
                    0,
                    fuel as nat,
                ) == Err::<(Seq<(Seq<char>, NetV)>, nat), Fault>(e),
            }),
    {
        let stage = &vir.stages[i];
        if stage.interface >= vir.interfaces.len() {
            proof {
                assert(sp_emit_stages(
                    ctx0,
                    nets_view(*nets),
                    em.dup_labels as nat,
                    i as nat,
                    fuel as nat,
                ) == Err::<(Seq<(Seq<char>, NetV)>, nat), Fault>(Fault::BrokenRef));
            }
            return Err(Fault::BrokenRef);
        }
        let itf = &vir.interfaces[stage.interface];
        if itf.incoming != 0 && !itf.inline() {
            em.wire_offset = 0;
            em.wires = stage.wires;
            let ghost st0 = em.st();
            proof {
                assert(st0 =~= (StateV {
                    locals: Seq::<Option<crate::linear::LocalV>>::empty(),
                    pairs: Seq::<(TreeV, TreeV)>::empty(),
                    wire_offset: 0,
                    wires: stage.wires as nat,
                    dup_labels: em.dup_labels as nat,
                }));
            }
            let root0 = match em.emit_interface(itf, true) {
                Ok(t) => t,
                Err(e) => {
                    proof {
                        assert(sp_emit_stages(
                            ctx0,
                            nets_view(*nets),
                            st0.dup_labels,
                            i as nat,
                            fuel as nat,
                        ) == Err::<(Seq<(Seq<char>, NetV)>, nat), Fault>(e));
                    }
                    return Err(e);
                },
            };
            proof {
                lemma_iface_items_keep_offset(ctx0, st0, itf.wires@, true);
            }
            let root = match em.emit_header(&stage.header, root0) {
                Ok(t) => t,
                Err(e) => {
                    proof {
                        assert(sp_emit_stages(
                            ctx0,
                            nets_view(*nets),
                            st0.dup_labels,
                            i as nat,
                            fuel as nat,
                        ) == Err::<(Seq<(Seq<char>, NetV)>, nat), Fault>(e));
                    }
                    return Err(e);
                },
            };
            match em.emit_stage_body(stage, fuel) {
                Ok(u) => (),
                Err(e) => {
                    proof {
                        assert(sp_emit_stages(
                            ctx0,
                            nets_view(*nets),
                            st0.dup_labels,
                            i as nat,
                            fuel as nat,
                        ) == Err::<(Seq<(Seq<char>, NetV)>, nat), Fault>(e));
                    }
                    return Err(e);
                },
            }
            match em.drain_all() {
                Ok(u) => (),
                Err(e) => {
                    proof {
                        assert(sp_emit_stages(
                            ctx0,
                            nets_view(*nets),
                            st0.dup_labels,
                            i as nat,
                            fuel as nat,
                        ) == Err::<(Seq<(Seq<char>, NetV)>, nat), Fault>(e));
                    }
                    return Err(e);
                },
            }
            if !em.can_name(spec_id) {
                proof {
                    assert(sp_emit_stages(
                        ctx0,
                        nets_view(*nets),
                        st0.dup_labels,
                        i as nat,
                        fuel as nat,
                    ) == Err::<(Seq<(Seq<char>, NetV)>, nat), Fault>(Fault::BrokenRef));
                }
                return Err(Fault::BrokenRef);
            }
            let name = em.stage_name(spec_id, stage.id);
            let mut ps: Vec<Pair> = Vec::new();
            core::mem::swap(&mut em.pairs, &mut ps);
            em.locals = Vec::new();
            let net = Net { root, pairs: ps };
            match nets.insert(name, net) {
                Ok(u) => (),
                Err(e) => {
                    proof {
                        assert(sp_emit_stages(
                            ctx0,
                            nets_view(*nets),
                            st0.dup_labels,
                            i as nat,
                            fuel as nat,
                        ) == Err::<(Seq<(Seq<char>, NetV)>, nat), Fault>(e));
                    }
                    return Err(e);
                },
            }
            proof {
                assert(locals_view(em.locals@) =~= Seq::<
                    Option<crate::linear::LocalV>,
                >::empty());
                assert(pairs_view(em.pairs@) =~= Seq::<(TreeV, TreeV)>::empty());
            }
        }
    }
    *labels = em.dup_labels;
    Ok(())
}

/// Register the program entry: a network under the root name whose root
/// refers to the call stage of the main unit's outermost closure.
pub fn emit_main(
    fragments: &Vec<Fragment>,
    virs: &Vec<Vir>,
    nets: &mut Nets,
    main: FragmentId,
) -> (r: Result<(), Fault>)
    ensures
        (match sp_emit_main(*fragments, *virs, nets_view(*old(nets)), main) {
            Ok(ns) => r is Ok && nets_view(*final(nets)) == ns,
            Err(e) => r == Err::<(), Fault>(e),
        }),
{
    if main >= fragments.len() {
        return Err(Fault::BrokenRef);
    }
    if main >= virs.len() {
        return Err(Fault::BrokenRef);
    }
    let vir = &virs[main];
    if vir.closures.len() == 0 {
        return Err(Fault::BrokenRef);
    }
    let func = vir.closures[vir.closures.len() - 1];
    if func >= vir.interfaces.len() {
        return Err(Fault::BrokenRef);
    }
    match &vir.interfaces[func].kind {
        InterfaceKind::Fn { call, fork, drop } => {
            let mut name = fragments[main].path.clone();
            push_suffix(&mut name, *call);
            let key = "::".to_owned();
            proof {
                reveal_strlit("::");
                assert(key@ =~= root_key());
            }
            let net = Net { root: Tree::Global(name), pairs: Vec::new() };
            proof {
                assert(pairs_view(net.pairs@) =~= Seq::<(TreeV, TreeV)>::empty());
            }
            match nets.insert(key, net) {
                Ok(u) => Ok(()),
                Err(e) => Err(e),
            }
        },
        _ => Err(Fault::BrokenRef),
    }
}

} // verus!
