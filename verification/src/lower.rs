//! The lowering of the pieces one step is made of: port lists, boundary
//! wiring, headers, the finishing of locals, and the composite-data
//! protocols (tuples, tagged unions, lists, strings, inline fragments),
//! each proved against its mirror in [`crate::emit`].

use vstd::prelude::*;

use crate::emit::CtxV;
use crate::emit::StateV;
use crate::emit::VirEmitter;
use crate::emit::chars_trees;
use crate::emit::enum_label;
use crate::emit::enum_slots;
use crate::emit::lbl_add;
use crate::emit::lbl_enum;
use crate::emit::lbl_fn;
use crate::emit::lbl_ref;
use crate::emit::lbl_tup;
use crate::emit::lbl_x;
use crate::emit::local_at;
use crate::emit::locals_view;
use crate::emit::grown;
use crate::emit::st_local;
use crate::emit::sp_iface_entry;
use crate::emit::sp_iface_items;
use crate::emit::sp_interface;
use crate::emit::sp_finish;
use crate::emit::sp_invoke;
use crate::emit::ref_label;
use crate::emit::segs_len32;
use crate::emit::sp_binds;
use crate::emit::sp_call;
use crate::emit::sp_drain;
use crate::emit::sp_enum_step;
use crate::emit::sp_enum_tree;
use crate::emit::sp_finish_decls;
use crate::emit::sp_fresh;
use crate::emit::sp_header;
use crate::emit::sp_ivy_step;
use crate::emit::sp_list_tree;
use crate::emit::sp_port;
use crate::emit::sp_ports;
use crate::emit::sp_stage_body;
use crate::emit::sp_str_chain;
use crate::emit::sp_str_step;
use crate::emit::state_res;
use crate::emit::state_tree_res;
use crate::emit::str_len32;
use crate::emit::tree_res;
use crate::emit::trees_res;
use crate::emit::wires_full;
use crate::net::Fault;
use crate::net::Net;
use crate::net::sp_n_ary;
use crate::net::Pair;
use crate::net::Tree;
use crate::net::TreeV;
use crate::net::append_pairs;
use crate::net::n_ary;
use crate::net::net_view;
use crate::net::pairs_view;
use crate::net::tree_view;
use crate::net::trees_view;
use crate::linear::LocalState;
use crate::linear::LocalV;
use crate::linear::empty_local;
use crate::linear::finish_view;
use crate::linear::local_view;
use crate::linear::op_assign;
use crate::linear::op_erase;
use crate::linear::op_get;
use crate::linear::op_hedge;
use crate::linear::op_mutate;
use crate::linear::op_take;
use crate::vir::opt_seq;
use crate::vir::Header;
use crate::vir::Interface;
use crate::vir::Local;
use crate::vir::Usage;
use crate::vir::Port;
use crate::vir::Step;
use vstd::string::StrSliceExecFns;

verus! {

impl<'a> VirEmitter<'a> {
    /// Lower a list of ports, in order.
    pub fn emit_ports(&self, ports: &Vec<Port>) -> (r: Result<Vec<Tree>, Fault>)
        ensures
            trees_res(r) == sp_ports(self.ctx(), self.st().wire_offset, ports@),
    {
        let ghost ctx = self.ctx();
        let ghost off = self.st().wire_offset;
        let mut out: Vec<Tree> = Vec::new();
        let n = ports.len();
        proof {
            assert(ports@.skip(0) =~= ports@);
        }
        for i in 0..n
            invariant
                n == ports@.len(),
                ctx == self.ctx(),
                off == self.st().wire_offset,
                (match sp_ports(ctx, off, ports@.skip(i as int)) {
                    Ok(rest) => sp_ports(ctx, off, ports@) == Ok::<_, Fault>(
                        trees_view(out@) + rest,
                    ),
                    Err(e) => sp_ports(ctx, off, ports@) == Err::<Seq<TreeV>, _>(e),
                }),
        {
            let ghost rem = ports@.skip(i as int);
            proof {
                assert(rem[0] == ports@[i as int]);
                assert(rem.skip(1) =~= ports@.skip(i + 1));
            }
            let t = match self.emit_port(&ports[i]) {
                Ok(t) => t,
                Err(e) => {
                    return Err(e);
                },
            };
            let ghost before = trees_view(out@);
            out.push(t);
            proof {
                assert(trees_view(out@) =~= before.push(tree_view(t)));
                match sp_ports(ctx, off, ports@.skip(i + 1)) {
                    Ok(rest) => {
                        assert(before + (seq![tree_view(t)] + rest) =~= trees_view(out@) + rest);
                    },
                    Err(e) => (),
                }
            }
        }
        proof {
            assert(ports@.skip(n as int) =~= Seq::<Port>::empty());
            assert(trees_view(out@) + Seq::<TreeV>::empty() =~= trees_view(out@));
        }
        Ok(out)
    }

    /// Finish one local's bookkeeping into the running equation list.
    pub fn finish_local(&mut self, l: LocalState) -> (r: Result<(), Fault>)
        ensures
            final(self).ctx() == old(self).ctx(),
            state_res(r, final(self).st()) == sp_finish(old(self).st(), local_view(l)),
    {
        let ghost lv = local_view(l);
        let r = crate::linear::finish_local(l, &mut self.pairs, &mut self.dup_labels);
        proof {
            match finish_view(lv, old(self).st().dup_labels) {
                Ok(res) => {
                    assert(self.st() =~= (StateV {
                        pairs: old(self).st().pairs + res.0,
                        dup_labels: res.1,
                        ..old(self).st()
                    }));
                },
                Err(e) => (),
            }
        }
        r
    }

    /// Finish the declared locals whose lifetime ends here, from index
    /// `i` of the declaration list on.
    pub(crate) fn finish_decls(&mut self, decls: &Vec<Local>, i: usize) -> (r: Result<(), Fault>)
        requires
            i <= decls@.len(),
        ensures
            final(self).ctx() == old(self).ctx(),
            state_res(r, final(self).st()) == sp_finish_decls(old(self).st(), decls@.skip(i as int)),
        decreases decls@.len() - i,
    {
        let ghost st0 = self.st();
        if i == decls.len() {
            proof {
                assert(decls@.skip(i as int) =~= Seq::<Local>::empty());
            }
            return Ok(());
        }
        let ghost rem = decls@.skip(i as int);
        proof {
            assert(rem[0] == decls@[i as int]);
            assert(rem.skip(1) =~= decls@.skip(i + 1));
        }
        let d = decls[i];
        if d < self.locals.len() && self.locals[d].is_some() {
            proof {
                assert(locals_view(self.locals@)[d as int] == (match self.locals@[d as int] {
                    Option::Some(l) => Option::Some(local_view(l)),
                    Option::None => Option::<LocalV>::None,
                }));
            }
            let l = self.take_local(d);
            proof {
                assert(grown(st0.locals, d as nat) =~= st0.locals);
            }
            match self.finish_local(l) {
                Ok(u) => (),
                Err(e) => {
                    return Err(e);
                },
            }
        } else {
            proof {
                if d < self.locals@.len() {
                    assert(locals_view(self.locals@)[d as int] == (match self.locals@[d as int] {
                        Option::Some(l) => Option::Some(local_view(l)),
                        Option::None => Option::<LocalV>::None,
                    }));
                }
            }
        }
        self.finish_decls(decls, i + 1)
    }

    /// Finish every local still open, in increasing order, from slot
    /// `i` on.
    fn drain_locals(&mut self, i: usize) -> (r: Result<(), Fault>)
        ensures
            final(self).ctx() == old(self).ctx(),
            state_res(r, final(self).st()) == sp_drain(old(self).st(), i as nat),
        decreases old(self).locals@.len() - i,
    {
        let ghost st0 = self.st();
        if i >= self.locals.len() {
            return Ok(());
        }
        proof {
            assert(locals_view(self.locals@)[i as int] == (match self.locals@[i as int] {
                Option::Some(l) => Option::Some(local_view(l)),
                Option::None => Option::<LocalV>::None,
            }));
        }
        if self.locals[i].is_some() {
            let l = self.take_local(i);
            proof {
                assert(grown(st0.locals, i as nat) =~= st0.locals);
            }
            match self.finish_local(l) {
                Ok(u) => (),
                Err(e) => {
                    return Err(e);
                },
            }
        }
        self.drain_locals(i + 1)
    }

    /// Emit one boundary entry of an interface.
    fn emit_iface_entry(&mut self, local: Local, u: Usage, side: bool, out: &mut Vec<Tree>) -> (r:
        Result<(), Fault>)
        ensures
            final(self).ctx() == old(self).ctx(),
            (match sp_iface_entry(old(self).ctx(), old(self).st(), local, u, side) {
                Ok(step) => r is Ok && final(self).st() == step.0 && trees_view(final(out)@)
                    == trees_view(old(out)@) + opt_seq(step.1),
                Err(e) => r == Err::<(), Fault>(e),
            }),
    {
        let ghost st0 = self.st();
        match u {
            Usage::Erase => {
                let mut l = self.take_local(local);
                l.erase();
                self.put_local(local, l);
                proof {
                    assert(self.st() =~= st_local(
                        st0,
                        local as nat,
                        op_erase(local_at(st0.locals, local as nat)),
                    ));
                    assert(trees_view(out@) =~= trees_view(out@) + opt_seq(
                        Option::<TreeV>::None,
                    ));
                }
                Ok(())
            },
            Usage::Mut => {
                let (a0, a1) = match self.new_wire() {
                    Ok(w) => w,
                    Err(e) => {
                        return Err(e);
                    },
                };
                let (b0, b1) = match self.new_wire() {
                    Ok(w) => w,
                    Err(e) => {
                        return Err(e);
                    },
                };
                let mut l = self.take_local(local);
                l.mutate(a0, b0);
                self.put_local(local, l);
                let item = if side {
                    Tree::Comb(lbl_x().to_owned(), Box::new(b1), Box::new(a1))
                } else {
                    Tree::Comb(lbl_x().to_owned(), Box::new(a1), Box::new(b1))
                };
                let ghost before = trees_view(out@);
                let ghost itemv = tree_view(item);
                out.push(item);
                proof {
                    assert(self.st() =~= st_local(
                        sp_fresh(sp_fresh(st0).0).0,
                        local as nat,
                        op_mutate(
                            local_at(st0.locals, local as nat),
                            sp_fresh(st0).1,
                            sp_fresh(sp_fresh(st0).0).1,
                        ),
                    ));
                    assert(trees_view(out@) =~= before + opt_seq(Option::Some(itemv)));
                }
                Ok(())
            },
            Usage::Assign => {
                let (w0, w1) = match self.new_wire() {
                    Ok(w) => w,
                    Err(e) => {
                        return Err(e);
                    },
                };
                let mut l = self.take_local(local);
                l.assign(w0);
                self.put_local(local, l);
                let ghost before = trees_view(out@);
                out.push(w1);
                proof {
                    assert(self.st() =~= st_local(
                        sp_fresh(st0).0,
                        local as nat,
                        op_assign(local_at(st0.locals, local as nat), sp_fresh(st0).1),
                    ));
                    assert(trees_view(out@) =~= before + opt_seq(Option::Some(sp_fresh(st0).1)));
                }
                Ok(())
            },
            Usage::Take => {
                let (w0, w1) = match self.new_wire() {
                    Ok(w) => w,
                    Err(e) => {
                        return Err(e);
                    },
                };
                let mut l = self.take_local(local);
                l.take(w0);
                self.put_local(local, l);
                let ghost before = trees_view(out@);
                out.push(w1);
                proof {
                    assert(self.st() =~= st_local(
                        sp_fresh(st0).0,
                        local as nat,
                        op_take(local_at(st0.locals, local as nat), sp_fresh(st0).1),
                    ));
                    assert(trees_view(out@) =~= before + opt_seq(Option::Some(sp_fresh(st0).1)));
                }
                Ok(())
            },
            Usage::Get => {
                let (w0, w1) = match self.new_wire() {
                    Ok(w) => w,
                    Err(e) => {
                        return Err(e);
                    },
                };
                let mut l = self.take_local(local);
                l.get(w0);
                self.put_local(local, l);
                let ghost before = trees_view(out@);
                out.push(w1);
                proof {
                    assert(self.st() =~= st_local(
                        sp_fresh(st0).0,
                        local as nat,
                        op_get(local_at(st0.locals, local as nat), sp_fresh(st0).1),
                    ));
                    assert(trees_view(out@) =~= before + opt_seq(Option::Some(sp_fresh(st0).1)));
                }
                Ok(())
            },
            Usage::Hedge => {
                let (w0, w1) = match self.new_wire() {
                    Ok(w) => w,
                    Err(e) => {
                        return Err(e);
                    },
                };
                let mut l = self.take_local(local);
                l.hedge(w0);
                self.put_local(local, l);
                let ghost before = trees_view(out@);
                out.push(w1);
                proof {
                    assert(self.st() =~= st_local(
                        sp_fresh(st0).0,
                        local as nat,
                        op_hedge(local_at(st0.locals, local as nat), sp_fresh(st0).1),
                    ));
                    assert(trees_view(out@) =~= before + opt_seq(Option::Some(sp_fresh(st0).1)));
                }
                Ok(())
            },
        }
    }

    /// Emit the boundary items of an interface's wires, from entry `i`
    /// on.
    fn emit_iface_items(
        &mut self,
        wires: &Vec<(Local, (Usage, Usage))>,
        i: usize,
        side: bool,
        out: &mut Vec<Tree>,
    ) -> (r: Result<(), Fault>)
        requires
            i <= wires@.len(),
        ensures
            final(self).ctx() == old(self).ctx(),
            (match sp_iface_items(old(self).ctx(), old(self).st(), wires@.skip(i as int), side) {
                Ok(step) => r is Ok && final(self).st() == step.0 && trees_view(final(out)@)
                    == trees_view(old(out)@) + step.1,
                Err(e) => r == Err::<(), Fault>(e),
            }),
        decreases wires@.len() - i,
    {
        if i == wires.len() {
            proof {
                assert(wires@.skip(i as int) =~= Seq::<(Local, (Usage, Usage))>::empty());
                assert(trees_view(out@) =~= trees_view(out@) + Seq::<TreeV>::empty());
            }
            return Ok(());
        }
        let ghost rem = wires@.skip(i as int);
        proof {
            assert(rem[0] == wires@[i as int]);
            assert(rem.skip(1) =~= wires@.skip(i + 1));
        }
        let entry = wires[i];
        let u = if side {
            entry.1.1
        } else {
            entry.1.0
        };
        let ghost out0 = trees_view(out@);
        match self.emit_iface_entry(entry.0, u, side, out) {
            Ok(unit) => (),
            Err(e) => {
                return Err(e);
            },
        }
        let ghost out1 = trees_view(out@);
        let r = self.emit_iface_items(wires, i + 1, side, out);
        proof {
            match sp_iface_items(old(self).ctx(), old(self).st(), rem, side) {
                Ok(step) => {
                    assert(trees_view(out@) =~= out0 + step.1);
                },
                Err(e) => (),
            }
        }
        r
    }

    /// An interface's boundary wiring: register each crossing local's
    /// usage and fold the boundary items under the boundary label.
    pub fn emit_interface(&mut self, itf: &Interface, side: bool) -> (r: Result<Tree, Fault>)
        ensures
            final(self).ctx() == old(self).ctx(),
            state_tree_res(r, final(self).st()) == sp_interface(
                old(self).ctx(),
                old(self).st(),
                *itf,
                side,
            ),
    {
        let mut items: Vec<Tree> = Vec::new();
        proof {
            assert(itf.wires@.skip(0) =~= itf.wires@);
        }
        match self.emit_iface_items(&itf.wires, 0, side, &mut items) {
            Ok(unit) => (),
            Err(e) => {
                return Err(e);
            },
        }
        proof {
            match sp_iface_items(old(self).ctx(), old(self).st(), itf.wires@, side) {
                Ok(step) => {
                    assert(trees_view(items@) =~= step.1);
                },
                Err(e) => (),
            }
        }
        Ok(n_ary(lbl_x(), items))
    }
}

impl<'a> VirEmitter<'a> {
    /// Wrap a stage's root continuation in its header.
    pub fn emit_header(&self, h: &Header, root: Tree) -> (r: Result<Tree, Fault>)
        ensures
            tree_res(r) == sp_header(self.ctx(), self.st().wire_offset, *h, tree_view(root)),
    {
        match h {
            Header::Empty => Ok(root),
            Header::Match(d) => match d {
                Option::Some(p) => {
                    let t = match self.emit_port(p) {
                        Ok(t) => t,
                        Err(e) => {
                            return Err(e);
                        },
                    };
                    Ok(Tree::Comb(lbl_enum().to_owned(), Box::new(t), Box::new(root)))
                },
                Option::None => Ok(root),
            },
            Header::Fn(params, ret) => {
                let mut ps: Vec<Port> = Vec::new();
                let n = params.len();
                for i in 0..n
                    invariant
                        n == params@.len(),
                        ps@ == params@.take(i as int),
                {
                    ps.push(params[i]);
                    proof {
                        assert(ps@ =~= params@.take(i + 1));
                    }
                }
                ps.push(*ret);
                proof {
                    assert(params@.take(n as int) =~= params@);
                    assert(ps@ =~= params@ + seq![*ret]);
                }
                let ts = match self.emit_ports(&ps) {
                    Ok(ts) => ts,
                    Err(e) => {
                        return Err(e);
                    },
                };
                let mut items: Vec<Tree> = Vec::new();
                items.push(root);
                let mut ts = ts;
                items.append(&mut ts);
                proof {
                    match sp_ports(self.ctx(), self.st().wire_offset, params@ + seq![*ret]) {
                        Ok(tsv) => {
                            assert(trees_view(items@) =~= seq![tree_view(root)] + tsv);
                        },
                        Err(e) => (),
                    }
                }
                Ok(n_ary(lbl_fn(), items))
            },
            Header::Fork(former, latter) => {
                let lt = match self.emit_port(latter) {
                    Ok(t) => t,
                    Err(e) => {
                        return Err(e);
                    },
                };
                let ft = match self.emit_port(former) {
                    Ok(t) => t,
                    Err(e) => {
                        return Err(e);
                    },
                };
                let mut items: Vec<Tree> = Vec::new();
                items.push(Tree::Erase);
                items.push(Tree::Comb(lbl_ref().to_owned(), Box::new(root), Box::new(lt)));
                items.push(ft);
                proof {
                    match sp_header(self.ctx(), self.st().wire_offset, *h, tree_view(root)) {
                        Ok(t) => {
                            assert(trees_view(items@) =~= seq![
                                TreeV::Erase,
                                TreeV::Comb(
                                    ref_label(),
                                    Box::new(tree_view(root)),
                                    Box::new(tree_view(lt)),
                                ),
                                tree_view(ft),
                            ]);
                        },
                        Err(e) => (),
                    }
                }
                Ok(n_ary(lbl_fn(), items))
            },
            Header::Drop => {
                let mut items: Vec<Tree> = Vec::new();
                items.push(Tree::Erase);
                items.push(root);
                items.push(Tree::Erase);
                proof {
                    assert(trees_view(items@) =~= seq![
                        TreeV::Erase,
                        tree_view(items@[1]),
                        TreeV::Erase,
                    ]);
                }
                Ok(n_ary(lbl_fn(), items))
            },
        }
    }

    /// Build the list protocol over already-lowered elements.
    pub fn emit_list(&mut self, items: Vec<Tree>) -> (r: Result<Tree, Fault>)
        ensures
            final(self).ctx() == old(self).ctx(),
            state_tree_res(r, final(self).st()) == sp_list_tree(old(self).st(), trees_view(
                items@,
            )),
    {
        if items.len() > (u32::MAX as usize) {
            return Err(Fault::WireScope);
        }
        let len = items.len() as u32;
        let (e0, e1) = match self.new_wire() {
            Ok(w) => w,
            Err(e) => {
                return Err(e);
            },
        };
        let ghost itemsv = trees_view(items@);
        let mut items = items;
        items.push(e0);
        proof {
            assert(trees_view(items@) =~= itemsv.push(tree_view(e0)));
        }
        let buf = n_ary(lbl_tup(), items);
        let mut outer: Vec<Tree> = Vec::new();
        outer.push(Tree::N32(len));
        outer.push(buf);
        outer.push(e1);
        proof {
            assert(trees_view(outer@) =~= seq![
                TreeV::N32(len),
                tree_view(outer@[1]),
                tree_view(e1),
            ]);
        }
        Ok(n_ary(lbl_tup(), outer))
    }

    /// Build the tagged-union protocol over already-lowered field data.
    pub fn emit_enum_tree(&mut self, count: usize, variant: usize, fields: Vec<Tree>) -> (r:
        Result<Tree, Fault>)
        ensures
            final(self).ctx() == old(self).ctx(),
            state_tree_res(r, final(self).st()) == sp_enum_tree(
                old(self).st(),
                count,
                variant,
                trees_view(fields@),
            ),
    {
        let (w0, w1) = match self.new_wire() {
            Ok(w) => w,
            Err(e) => {
                return Err(e);
            },
        };
        let ghost fieldsv = trees_view(fields@);
        let ghost wv = tree_view(w0);
        let mut fields = fields;
        fields.push(w0);
        proof {
            assert(trees_view(fields@) =~= fieldsv.push(wv));
        }
        let inner = n_ary(lbl_enum(), fields);
        let ghost innerv = tree_view(inner);
        let mut held: Option<Tree> = Some(inner);
        let mut slots: Vec<Tree> = Vec::new();
        proof {
            assert(trees_view(slots@) =~= Seq::new(
                0,
                |j: int|
                    if j == variant as int {
                        innerv
                    } else {
                        TreeV::Erase
                    },
            ));
        }
        for i in 0..count
            invariant
                trees_view(slots@) == Seq::new(
                    i as nat,
                    |j: int|
                        if j == variant as int {
                            innerv
                        } else {
                            TreeV::Erase
                        },
                ),
                i <= variant ==> (held matches Option::Some(t) && tree_view(t) == innerv),
        {
            if i == variant {
                let mut tmp: Option<Tree> = None;
                core::mem::swap(&mut held, &mut tmp);
                let t = match tmp {
                    Option::Some(t) => t,
                    Option::None => {
                        proof {
                            assert(false);
                        }
                        Tree::Erase
                    },
                };
                proof {
                    assert(tree_view(t) == innerv);
                }
                let ghost before = trees_view(slots@);
                slots.push(t);
                proof {
                    assert(trees_view(slots@) =~= before.push(innerv));
                    assert(trees_view(slots@) =~= Seq::new(
                        (i + 1) as nat,
                        |j: int|
                            if j == variant as int {
                                innerv
                            } else {
                                TreeV::Erase
                            },
                    ));
                }
            } else {
                let ghost before = trees_view(slots@);
                slots.push(Tree::Erase);
                proof {
                    assert(trees_view(slots@) =~= before.push(TreeV::Erase));
                    assert(trees_view(slots@) =~= Seq::new(
                        (i + 1) as nat,
                        |j: int|
                            if j == variant as int {
                                innerv
                            } else {
                                TreeV::Erase
                            },
                    ));
                }
            }
        }
        let ghost before_w = trees_view(slots@);
        slots.push(w1);
        let tree = n_ary(lbl_enum(), slots);
        proof {
            let stspec = old(self).st();
            let wspec = sp_fresh(stspec).1;
            let innerspec = sp_n_ary(enum_label(), fieldsv.push(wspec));
            assert(fieldsv.push(wv) =~= fieldsv.push(wspec));
            assert(innerv == innerspec);
            assert(before_w =~= enum_slots(count, variant, innerspec));
            assert(trees_view(slots@) =~= enum_slots(count, variant, innerspec).push(wspec));
            assert(tree_view(tree) == sp_n_ary(
                enum_label(),
                enum_slots(count, variant, innerspec).push(wspec),
            ));
        }
        Ok(tree)
    }

    /// Lower the character buffer of a literal.
    fn char_items(&self, s: &str) -> (r: Vec<Tree>)
        ensures
            trees_view(r@) == chars_trees(s@),
    {
        let mut out: Vec<Tree> = Vec::new();
        let n = s.unicode_len();
        proof {
            assert(trees_view(out@) =~= chars_trees(s@.take(0)));
        }
        for i in 0..n
            invariant
                n as nat == s@.len(),
                trees_view(out@) == chars_trees(s@.take(i as int)),
        {
            let c = s.get_char(i);
            out.push(Tree::N32(c as u32));
            proof {
                assert(s@.take(i + 1) =~= s@.take(i as int).push(s@[i as int]));
                assert(chars_trees(s@.take(i as int).push(s@[i as int])) =~= chars_trees(
                    s@.take(i as int),
                ).push(TreeV::N32(s@[i as int] as u32)));
                assert(trees_view(out@) =~= chars_trees(s@.take(i + 1)));
            }
        }
        proof {
            assert(s@.take(n as int) =~= s@);
        }
        out
    }

    /// The combined character count of the segments from `i` on, in the
    /// 32-bit range.
    fn segs_len(&self, rest: &Vec<(Port, String)>, i: usize) -> (r: u32)
        requires
            i <= rest@.len(),
        ensures
            r as nat == segs_len32(rest@.skip(i as int)),
        decreases rest@.len() - i,
    {
        if i == rest.len() {
            proof {
                assert(rest@.skip(i as int) =~= Seq::<(Port, String)>::empty());
            }
            return 0;
        }
        let ghost rem = rest@.skip(i as int);
        proof {
            assert(rem[0] == rest@[i as int]);
            assert(rem.skip(1) =~= rest@.skip(i + 1));
        }
        let l = rest[i].1.as_str().unicode_len();
        let sub = self.segs_len(rest, i + 1);
        let r = ((((l as u64) % 0x1_0000_0000) + (sub as u64)) % 0x1_0000_0000) as u32;
        proof {
            let m = 0x1_0000_0000int;
            vstd::arithmetic::div_mod::lemma_add_mod_noop(l as int, sub as int, m);
            vstd::arithmetic::div_mod::lemma_small_mod(sub as nat, m as nat);
        }
        r
    }

    /// Chain the interpolated segments of a string step, from `i` on.
    fn emit_str_chain(
        &mut self,
        rest: &Vec<(Port, String)>,
        i: usize,
        cur_len: Tree,
        cur_buf: Tree,
    ) -> (r: Result<(Tree, Tree), Fault>)
        requires
            i <= rest@.len(),
        ensures
            final(self).ctx() == old(self).ctx(),
            (match sp_str_chain(
                old(self).ctx(),
                old(self).st(),
                rest@.skip(i as int),
                tree_view(cur_len),
                tree_view(cur_buf),
            ) {
                Ok(res) => r matches Ok(fin) && final(self).st() == res.0 && tree_view(fin.0)
                    == res.1 && tree_view(fin.1) == res.2,
                Err(e) => r == Err::<(Tree, Tree), Fault>(e),
            }),
        decreases rest@.len() - i,
    {
        if i == rest.len() {
            proof {
                assert(rest@.skip(i as int) =~= Seq::<(Port, String)>::empty());
            }
            return Ok((cur_len, cur_buf));
        }
        let ghost rem = rest@.skip(i as int);
        proof {
            assert(rem[0] == rest@[i as int]);
            assert(rem.skip(1) =~= rest@.skip(i + 1));
        }
        let p = match self.emit_port(&rest[i].0) {
            Ok(t) => t,
            Err(e) => {
                return Err(e);
            },
        };
        let (nl0, nl1) = match self.new_wire() {
            Ok(w) => w,
            Err(e) => {
                return Err(e);
            },
        };
        let (nb0, nb1) = match self.new_wire() {
            Ok(w) => w,
            Err(e) => {
                return Err(e);
            },
        };
        let mut seg_items = self.char_items(rest[i].1.as_str());
        let ghost segv = trees_view(seg_items@);
        seg_items.push(nb0);
        proof {
            assert(trees_view(seg_items@) =~= segv.push(tree_view(nb0)));
        }
        let seg_buf = n_ary(lbl_tup(), seg_items);
        let mut items: Vec<Tree> = Vec::new();
        items.push(
            Tree::ExtFn(lbl_add().to_owned(), false, Box::new(cur_len), Box::new(nl0)),
        );
        items.push(cur_buf);
        items.push(seg_buf);
        proof {
            assert(trees_view(items@) =~= seq![
                tree_view(items@[0]),
                tree_view(items@[1]),
                tree_view(items@[2]),
            ]);
        }
        let item = n_ary(lbl_tup(), items);
        self.pairs.push((p, item));
        proof {
            assert(pairs_view(self.pairs@) =~= pairs_view(old(self).pairs@).push(
                (tree_view(p), tree_view(item)),
            ));
        }
        self.emit_str_chain(rest, i + 1, nl1, nb1)
    }

    /// Bind each named port of an inline fragment, from `i` on.
    fn emit_ivy_binds(&mut self, binds: &Vec<(String, Port)>, i: usize) -> (r: Result<(), Fault>)
        requires
            i <= binds@.len(),
        ensures
            final(self).ctx() == old(self).ctx(),
            state_res(r, final(self).st()) == sp_binds(
                old(self).ctx(),
                old(self).st(),
                binds@.skip(i as int),
            ),
        decreases binds@.len() - i,
    {
        if i == binds.len() {
            proof {
                assert(binds@.skip(i as int) =~= Seq::<(String, Port)>::empty());
            }
            return Ok(());
        }
        let ghost rem = binds@.skip(i as int);
        proof {
            assert(rem[0] == binds@[i as int]);
            assert(rem.skip(1) =~= binds@.skip(i + 1));
        }
        let p = match self.emit_port(&binds[i].1) {
            Ok(t) => t,
            Err(e) => {
                return Err(e);
            },
        };
        let v = Tree::Var(binds[i].0.clone());
        self.pairs.push((v, p));
        proof {
            assert(pairs_view(self.pairs@) =~= pairs_view(old(self).pairs@).push(
                (tree_view(v), tree_view(p)),
            ));
        }
        self.emit_ivy_binds(binds, i + 1)
    }
}


impl<'a> VirEmitter<'a> {
    /// Lower a call step.
    pub fn emit_call_step(&mut self, rel: usize, recv: &Port, args: &Vec<Port>, ret: &Port) -> (r:
        Result<(), Fault>)
        ensures
            final(self).ctx() == old(self).ctx(),
            state_res(r, final(self).st()) == sp_call(
                old(self).ctx(),
                old(self).st(),
                rel,
                *recv,
                args@,
                *ret,
            ),
    {
        let ghost st0 = self.st();
        if rel >= self.specialization.rels.fns.len() {
            return Err(Fault::BrokenRef);
        }
        let f = match &self.specialization.rels.fns[rel] {
            Ok(t) => {
                if !self.can_name(t.0) {
                    return Err(Fault::BrokenRef);
                }
                Tree::Global(self.stage_name(t.0, t.1))
            },
            Err(e) => Tree::Erase,
        };
        let mut ps: Vec<Port> = Vec::new();
        ps.push(*recv);
        let n = args.len();
        for i in 0..n
            invariant
                n == args@.len(),
                ps@ == seq![*recv] + args@.take(i as int),
        {
            ps.push(args[i]);
            proof {
                assert(ps@ =~= seq![*recv] + args@.take(i + 1));
            }
        }
        ps.push(*ret);
        proof {
            assert(args@.take(n as int) =~= args@);
            assert(ps@ =~= seq![*recv] + args@ + seq![*ret]);
        }
        let ts = match self.emit_ports(&ps) {
            Ok(ts) => ts,
            Err(e) => {
                return Err(e);
            },
        };
        let tree = n_ary(lbl_fn(), ts);
        self.pairs.push((f, tree));
        proof {
            assert(self.st() =~= (StateV {
                pairs: st0.pairs.push((tree_view(f), tree_view(tree))),
                ..st0
            }));
        }
        Ok(())
    }

    /// Lower a tagged-union construction step.
    pub fn emit_enum_step(
        &mut self,
        enum_id: usize,
        variant_id: usize,
        port: &Port,
        fields: &Option<Port>,
    ) -> (r: Result<(), Fault>)
        ensures
            final(self).ctx() == old(self).ctx(),
            state_res(r, final(self).st()) == sp_enum_step(
                old(self).ctx(),
                old(self).st(),
                enum_id,
                variant_id,
                *port,
                *fields,
            ),
    {
        if enum_id >= self.chart.enums.len() {
            return Err(Fault::BrokenRef);
        }
        let count = self.chart.enums[enum_id].variant_count;
        let p = match self.emit_port(port) {
            Ok(t) => t,
            Err(e) => {
                return Err(e);
            },
        };
        let mut fs: Vec<Port> = Vec::new();
        if let Option::Some(fp) = fields {
            fs.push(*fp);
        }
        proof {
            assert(fs@ =~= opt_seq(*fields));
        }
        let ts = match self.emit_ports(&fs) {
            Ok(ts) => ts,
            Err(e) => {
                return Err(e);
            },
        };
        let tree = match self.emit_enum_tree(count, variant_id, ts) {
            Ok(t) => t,
            Err(e) => {
                return Err(e);
            },
        };
        let ghost st1 = self.st();
        self.pairs.push((p, tree));
        proof {
            assert(self.st() =~= (StateV {
                pairs: st1.pairs.push((tree_view(p), tree_view(tree))),
                ..st1
            }));
        }
        Ok(())
    }

    /// Lower a string construction step.
    #[verifier::rlimit(30)]
    pub fn emit_str_step(&mut self, port: &Port, init: &String, rest: &Vec<(Port, String)>) -> (r:
        Result<(), Fault>)
        ensures
            final(self).ctx() == old(self).ctx(),
            state_res(r, final(self).st()) == sp_str_step(
                old(self).ctx(),
                old(self).st(),
                *port,
                init@,
                rest@,
            ),
    {
        let ghost st0 = self.st();
        let p = match self.emit_port(port) {
            Ok(t) => t,
            Err(e) => {
                return Err(e);
            },
        };
        let (len0, len1) = match self.new_wire() {
            Ok(w) => w,
            Err(e) => {
                return Err(e);
            },
        };
        let (start0, start1) = match self.new_wire() {
            Ok(w) => w,
            Err(e) => {
                return Err(e);
            },
        };
        let (end0, end1) = match self.new_wire() {
            Ok(w) => w,
            Err(e) => {
                return Err(e);
            },
        };
        let mut init_items = self.char_items(init.as_str());
        let ghost initv = trees_view(init_items@);
        init_items.push(start0);
        proof {
            assert(trees_view(init_items@) =~= initv.push(tree_view(start0)));
        }
        let buf = n_ary(lbl_tup(), init_items);
        let mut whole_items: Vec<Tree> = Vec::new();
        whole_items.push(len0);
        whole_items.push(buf);
        whole_items.push(end0);
        proof {
            assert(trees_view(whole_items@) =~= seq![
                tree_view(whole_items@[0]),
                tree_view(whole_items@[1]),
                tree_view(whole_items@[2]),
            ]);
        }
        let whole = n_ary(lbl_tup(), whole_items);
        let ghost st3 = self.st();
        self.pairs.push((p, whole));
        proof {
            assert(self.st() =~= (StateV {
                pairs: st3.pairs.push((tree_view(p), tree_view(whole))),
                ..st3
            }));
        }
        let linit = init.as_str().unicode_len();
        let lsegs = self.segs_len(rest, 0);
        let total = ((((linit as u64) % 0x1_0000_0000) + (lsegs as u64))
            % 0x1_0000_0000) as u32;
        proof {
            let m = 0x1_0000_0000int;
            vstd::arithmetic::div_mod::lemma_add_mod_noop(
                linit as int,
                lsegs as int,
                m,
            );
            vstd::arithmetic::div_mod::lemma_small_mod(lsegs as nat, m as nat);
            assert(rest@.skip(0) =~= rest@);
            assert(total as nat == str_len32(init@, rest@));
        }
        let (fl, fb) = match self.emit_str_chain(rest, 0, Tree::N32(total), start1) {
            Ok(r) => r,
            Err(e) => {
                return Err(e);
            },
        };
        let ghost st4 = self.st();
        self.pairs.push((fl, len1));
        self.pairs.push((fb, end1));
        proof {
            assert(self.st() =~= (StateV {
                pairs: st4.pairs.push((tree_view(fl), tree_view(len1))).push(
                    (tree_view(fb), tree_view(end1)),
                ),
                ..st4
            }));
        }
        Ok(())
    }

    /// Lower an inline fragment step.
    pub fn emit_ivy_step(
        &mut self,
        binds: &Vec<(String, Port)>,
        out: &Port,
        net: &Net,
    ) -> (r: Result<(), Fault>)
        ensures
            final(self).ctx() == old(self).ctx(),
            state_res(r, final(self).st()) == sp_ivy_step(
                old(self).ctx(),
                old(self).st(),
                binds@,
                *out,
                *net,
            ),
    {
        proof {
            assert(binds@.skip(0) =~= binds@);
        }
        match self.emit_ivy_binds(binds, 0) {
            Ok(u) => (),
            Err(e) => {
                return Err(e);
            },
        }
        let po = match self.emit_port(out) {
            Ok(t) => t,
            Err(e) => {
                return Err(e);
            },
        };
        let root = net.root.duplicate();
        let ghost st1 = self.st();
        self.pairs.push((po, root));
        let ghost mid = self.pairs@;
        append_pairs(&mut self.pairs, &net.pairs);
        proof {
            crate::net::lemma_pairs_view_concat(mid, net.pairs@);
            assert(pairs_view(mid) =~= st1.pairs.push(
                (tree_view(po), net_view(*net).root),
            ));
            assert(self.st() =~= (StateV {
                pairs: st1.pairs.push((tree_view(po), net_view(*net).root)) + net_view(
                    *net,
                ).pairs,
                ..st1
            }));
        }
        Ok(())
    }

    /// Finish every local still open, in increasing order of local.
    pub fn drain_all(&mut self) -> (r: Result<(), Fault>)
        ensures
            final(self).ctx() == old(self).ctx(),
            state_res(r, final(self).st()) == sp_drain(old(self).st(), 0),
    {
        self.drain_locals(0)
    }
}

} // verus!
