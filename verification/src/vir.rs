//! The intermediate representation of one compiled unit: a state machine
//! of stages connected through control-transfer interfaces.
//!
//! The model is produced by an upstream analysis pass and consumed
//! read-only by the emission engine; the builder methods on [`Stage`] are
//! what that upstream pass uses to lay steps down.

use vstd::prelude::*;

use crate::net::Net;

verus! {

/// Index of a layer within one unit.
pub type LayerId = usize;

/// Index of a stage within one unit.
pub type StageId = usize;

/// Index of an interface within one unit.
pub type InterfaceId = usize;

/// Index of a wire within one stage.
pub type WireId = usize;

/// Index of a local variable within one unit.
pub type Local = usize;

/// Index of a tagged-union type in the chart of type definitions.
pub type EnumId = usize;

/// Index of a variant within one tagged-union type.
pub type VariantId = usize;

/// Index into a specialization's table of constant references.
pub type ConstRelId = usize;

/// Index into a specialization's table of function references.
pub type FnRelId = usize;

/// Index of a usage variable assigned by the upstream analysis.
pub type UsageVar = usize;

/// Marker that an earlier compilation phase already reported a
/// diagnostic for this value; emission degrades it to an erase leaf.
#[derive(Debug, Clone, Copy, PartialEq, Eq, Structural)]
pub struct ErrorGuaranteed;

/// One local variable's usage classification on one side of an
/// interface, as computed by the upstream analysis.
#[derive(Debug, Clone, Copy, PartialEq, Eq, Structural)]
pub enum Usage {
    Erase,
    Mut,
    Assign,
    Take,
    Get,
    Hedge,
}

/// One compiled unit: a function, closure, or constant.
#[derive(Debug, PartialEq)]
pub struct Vir {
    /// Number of local variables (locals are the indices below it).
    pub locals: usize,
    pub layers: Vec<Layer>,
    pub interfaces: Vec<Interface>,
    pub stages: Vec<Stage>,
    /// Locals that cross the unit boundary, with their usage.
    pub globals: Vec<(Local, Usage)>,
    /// The interface of each closure the unit defines, innermost last.
    pub closures: Vec<InterfaceId>,
}

/// A nesting scope for stages sharing a dynamic extent; groups stages
/// logically and carries no emission behavior of its own.
#[derive(Debug, Clone, PartialEq)]
pub struct Layer {
    pub id: LayerId,
    pub parent: Option<LayerId>,
    pub stages: Vec<StageId>,
}

/// A control-transfer target: how execution may resume, how many
/// transfers aim here, and which locals cross the boundary with which
/// usage on each side.
#[derive(Debug, Clone, PartialEq)]
pub struct Interface {
    pub id: InterfaceId,
    pub layer: LayerId,
    pub kind: InterfaceKind,
    /// Number of transfers that target this interface.
    pub incoming: usize,
    pub interior: Option<UsageVar>,
    pub exterior: Option<UsageVar>,
    /// Per-local usage classification, `(interior side, exterior side)`,
    /// in increasing order of local.
    pub wires: Vec<(Local, (Usage, Usage))>,
}

impl Interface {
    /// A fresh interface: no incoming transfers, no boundary wires.
    pub fn new(id: InterfaceId, layer: LayerId, kind: InterfaceKind) -> (r: Self)
        ensures
            r.id == id,
            r.layer == layer,
            r.kind == kind,
            r.incoming == 0,
            r.interior is None,
            r.exterior is None,
            r.wires@ == Seq::<(Local, (Usage, Usage))>::empty(),
            r.wires_wf(),
    {
        Interface { id, layer, kind, incoming: 0, interior: None, exterior: None, wires: Vec::new() }
    }

    /// The boundary map's well-formedness: entries stand in strictly
    /// increasing order of local, so each crossing local appears once.
    pub open spec fn wires_wf(&self) -> bool {
        forall|i: int, j: int|
            0 <= i < j < self.wires@.len() ==> self.wires@[i].0 < self.wires@[j].0
    }

    /// Whether this interface's stage is spliced into its one caller
    /// instead of getting a network of its own: it is not the unit's
    /// entry interface, exactly one transfer targets it, and it is
    /// unconditional.
    pub fn inline(&self) -> (r: bool)
        ensures
            r == (self.id != 0 && self.incoming == 1 && self.kind is Unconditional),
    {
        self.id != 0 && self.incoming == 1 && matches!(self.kind, InterfaceKind::Unconditional(_))
    }
}

/// How control resumes at an interface.
#[derive(Debug, Clone, PartialEq)]
pub enum InterfaceKind {
    /// A single stage.
    Unconditional(StageId),
    /// A two-way branch: the stage for a zero discriminant, then the
    /// stage for any other value.
    Branch(StageId, StageId),
    /// A pattern match over a tagged-union type: one stage per variant,
    /// in variant order.
    Match(EnumId, Vec<StageId>),
    /// A function: a call stage, plus optional fork and drop stages for
    /// closure values.
    Fn { call: StageId, fork: Option<StageId>, drop: Option<StageId> },
}

/// The stages an interface kind may resume at, in declaration order.
pub open spec fn kind_stages(k: InterfaceKind) -> Seq<StageId> {
    match k {
        InterfaceKind::Unconditional(a) => seq![a],
        InterfaceKind::Branch(a, b) => seq![a, b],
        InterfaceKind::Match(_, s) => s@,
        InterfaceKind::Fn { call, fork, drop } => seq![call] + opt_seq(fork) + opt_seq(drop),
    }
}

/// A one-element sequence for `Some`, empty for `None`.
pub open spec fn opt_seq<T>(o: Option<T>) -> Seq<T> {
    match o {
        Option::Some(x) => seq![x],
        Option::None => Seq::<T>::empty(),
    }
}

impl InterfaceKind {
    /// The stages this kind may resume at, in declaration order.
    pub fn stages(&self) -> (r: Vec<StageId>)
        ensures
            r@ == kind_stages(*self),
    {
        let mut r: Vec<StageId> = Vec::new();
        match self {
            InterfaceKind::Unconditional(a) => {
                r.push(*a);
            },
            InterfaceKind::Branch(a, b) => {
                r.push(*a);
                r.push(*b);
            },
            InterfaceKind::Match(_, s) => {
                let n = s.len();
                for i in 0..n
                    invariant
                        n == s@.len(),
                        r@ == s@.take(i as int),
                {
                    r.push(s[i]);
                    proof {
                        assert(r@ =~= s@.take(i + 1));
                    }
                }
                proof {
                    assert(s@.take(n as int) =~= s@);
                }
            },
            InterfaceKind::Fn { call, fork, drop } => {
                r.push(*call);
                if let Option::Some(f) = fork {
                    r.push(*f);
                }
                if let Option::Some(d) = drop {
                    r.push(*d);
                }
            },
        }
        proof {
            assert(r@ =~= kind_stages(*self));
        }
        r
    }
}

/// One compiled basic block: its header shape, the locals whose
/// lifetime ends here, its steps in program order, an optional final
/// transfer, and the number of wires it allocated.
#[derive(Debug, PartialEq)]
pub struct Stage {
    pub id: StageId,
    pub interface: InterfaceId,
    pub layer: LayerId,
    pub header: Header,
    pub declarations: Vec<Local>,
    pub steps: Vec<Step>,
    pub transfer: Option<Transfer>,
    /// Number of wires allocated so far; also the next fresh wire.
    pub wires: usize,
}

/// How a stage's free ports are shaped.
#[derive(Debug, Clone, PartialEq)]
pub enum Header {
    /// No free ports.
    Empty,
    /// A match arm, with its discriminant port once attached.
    Match(Option<Port>),
    /// A function body: parameter ports and the result port.
    Fn(Vec<Port>, Port),
    /// A closure's duplication of its environment.
    Fork(Port, Port),
    /// A closure's discard of its environment.
    Drop,
}

/// The ports a header references, in declaration order.
pub open spec fn header_ports(h: Header) -> Seq<Port> {
    match h {
        Header::Empty => Seq::<Port>::empty(),
        Header::Match(a) => opt_seq(a),
        Header::Fn(params, ret) => params@ + seq![ret],
        Header::Fork(a, b) => seq![a, b],
        Header::Drop => Seq::<Port>::empty(),
    }
}

impl Header {
    /// The ports this header references, in declaration order.
    pub fn ports(&self) -> (r: Vec<Port>)
        ensures
            r@ == header_ports(*self),
    {
        let mut r: Vec<Port> = Vec::new();
        match self {
            Header::Empty => (),
            Header::Drop => (),
            Header::Match(a) => {
                if let Option::Some(p) = a {
                    r.push(*p);
                }
            },
            Header::Fn(params, ret) => {
                let n = params.len();
                for i in 0..n
                    invariant
                        n == params@.len(),
                        r@ == params@.take(i as int),
                {
                    r.push(params[i]);
                    proof {
                        assert(r@ =~= params@.take(i + 1));
                    }
                }
                proof {
                    assert(params@.take(n as int) =~= params@);
                }
                r.push(*ret);
            },
            Header::Fork(a, b) => {
                r.push(*a);
                r.push(*b);
            },
        }
        proof {
            assert(r@ =~= header_ports(*self));
        }
        r
    }
}

/// One primitive operation of a stage.
#[derive(Debug, PartialEq)]
pub enum Step {
    /// An operation against a local variable.
    Invoke(Local, Invocation),
    /// Exit the stage to resume control at an interface.
    Transfer(Transfer),
    /// A divergent exit to an enclosing layer; resolved away upstream
    /// and never reaching emission.
    Diverge(LayerId, Option<Transfer>),
    /// Unify two ports.
    Link(Port, Port),
    /// A call through a resolved or unresolved function reference:
    /// reference, receiver, arguments, result.
    Call(FnRelId, Port, Vec<Port>, Port),
    /// Composite construction: the whole, then the field ports in
    /// declared order.
    Composite(Port, Vec<Port>),
    /// Tagged-union construction: type, variant, the whole, and the
    /// optional field data.
    Enum(EnumId, VariantId, Port, Option<Port>),
    /// Reference-cell construction: reference, value, space.
    Ref(Port, Port, Port),
    /// External binary operator: name, commutativity flag, left operand,
    /// right operand, result.
    ExtFn(String, bool, Port, Port, Port),
    /// Explicit duplication of one port into two.
    Dup(Port, Port, Port),
    /// List construction: the whole, then the element ports.
    List(Port, Vec<Port>),
    /// String construction: the whole, a literal prefix, and interpolated
    /// segments, each a port followed by the literal after it.
    Str(Port, String, Vec<(Port, String)>),
    /// A literal inline network fragment: bound ports by name, the output
    /// port, and the fragment itself.
    InlineIvy(Vec<(String, Port)>, Port, Net),
}

/// The ports a step references, in declaration order.
pub open spec fn step_ports(s: Step) -> Seq<Port> {
    match s {
        Step::Invoke(_, invocation) => invocation_ports(invocation),
        Step::Transfer(transfer) => opt_seq(transfer.data),
        Step::Diverge(_, t) => match t {
            Option::Some(transfer) => opt_seq(transfer.data),
            Option::None => Seq::<Port>::empty(),
        },
        Step::Link(a, b) => seq![a, b],
        Step::Call(_, f, args, r) => seq![f] + args@ + seq![r],
        Step::Composite(port, ports) => seq![port] + ports@,
        Step::Enum(_, _, a, fields) => seq![a] + opt_seq(fields),
        Step::Ref(a, b, c) => seq![a, b, c],
        Step::ExtFn(_, _, a, b, c) => seq![a, b, c],
        Step::Dup(a, b, c) => seq![a, b, c],
        Step::List(port, ports) => seq![port] + ports@,
        Step::Str(a, _, b) => seq![a] + b@.map_values(|x: (Port, String)| x.0),
        Step::InlineIvy(binds, root, _) => binds@.map_values(|x: (String, Port)| x.1) + seq![root],
    }
}

impl Step {
    /// The ports this step references, in declaration order.
    pub fn ports(&self) -> (r: Vec<Port>)
        ensures
            r@ == step_ports(*self),
    {
        let mut r: Vec<Port> = Vec::new();
        match self {
            Step::Invoke(_, invocation) => {
                match invocation {
                    Invocation::Erase => (),
                    Invocation::Get(a) => {
                        r.push(*a);
                    },
                    Invocation::Hedge(a) => {
                        r.push(*a);
                    },
                    Invocation::Take(a) => {
                        r.push(*a);
                    },
                    Invocation::Assign(a) => {
                        r.push(*a);
                    },
                    Invocation::Mut(a, b) => {
                        r.push(*a);
                        r.push(*b);
                    },
                }
            },
            Step::Transfer(transfer) => {
                if let Option::Some(p) = &transfer.data {
                    r.push(*p);
                }
            },
            Step::Diverge(_, t) => {
                if let Option::Some(transfer) = t {
                    if let Option::Some(p) = &transfer.data {
                        r.push(*p);
                    }
                }
            },
            Step::Link(a, b) => {
                r.push(*a);
                r.push(*b);
            },
            Step::Call(_, f, args, ret) => {
                r.push(*f);
                let n = args.len();
                for i in 0..n
                    invariant
                        n == args@.len(),
                        r@ == seq![*f] + args@.take(i as int),
                {
                    r.push(args[i]);
                    proof {
                        assert(r@ =~= seq![*f] + args@.take(i + 1));
                    }
                }
                r.push(*ret);
            },
            Step::Composite(port, ports) => {
                r.push(*port);
                let n = ports.len();
                for i in 0..n
                    invariant
                        n == ports@.len(),
                        r@ == seq![*port] + ports@.take(i as int),
                {
                    r.push(ports[i]);
                    proof {
                        assert(r@ =~= seq![*port] + ports@.take(i + 1));
                    }
                }
            },
            Step::Enum(_, _, a, fields) => {
                r.push(*a);
                if let Option::Some(p) = fields {
                    r.push(*p);
                }
            },
            Step::Ref(a, b, c) => {
                r.push(*a);
                r.push(*b);
                r.push(*c);
            },
            Step::ExtFn(_, _, a, b, c) => {
                r.push(*a);
                r.push(*b);
                r.push(*c);
            },
            Step::Dup(a, b, c) => {
                r.push(*a);
                r.push(*b);
                r.push(*c);
            },
            Step::List(port, ports) => {
                r.push(*port);
                let n = ports.len();
                for i in 0..n
                    invariant
                        n == ports@.len(),
                        r@ == seq![*port] + ports@.take(i as int),
                {
                    r.push(ports[i]);
                    proof {
                        assert(r@ =~= seq![*port] + ports@.take(i + 1));
                    }
                }
            },
            Step::Str(a, _, b) => {
                r.push(*a);
                let n = b.len();
                for i in 0..n
                    invariant
                        n == b@.len(),
                        r@ == seq![*a] + b@.take(i as int).map_values(|x: (Port, String)| x.0),
                {
                    r.push(b[i].0);
                    proof {
                        assert(b@.take(i + 1).map_values(|x: (Port, String)| x.0) =~= b@.take(
                            i as int,
                        ).map_values(|x: (Port, String)| x.0).push(b@[i as int].0));
                        assert(r@ =~= seq![*a] + b@.take(i + 1).map_values(
                            |x: (Port, String)| x.0,
                        ));
                    }
                }
            },
            Step::InlineIvy(binds, root, _) => {
                let n = binds.len();
                for i in 0..n
                    invariant
                        n == binds@.len(),
                        r@ == binds@.take(i as int).map_values(|x: (String, Port)| x.1),
                {
                    r.push(binds[i].1);
                    proof {
                        assert(binds@.take(i + 1).map_values(|x: (String, Port)| x.1)
                            =~= binds@.take(i as int).map_values(|x: (String, Port)| x.1).push(
                            binds@[i as int].1,
                        ));
                        assert(r@ =~= binds@.take(i + 1).map_values(|x: (String, Port)| x.1));
                    }
                }
                r.push(*root);
            },
        }
        proof {
            match self {
                Step::Call(_, f, args, ret) => {
                    assert(args@.take(args@.len() as int) =~= args@);
                },
                Step::Composite(port, ports) => {
                    assert(ports@.take(ports@.len() as int) =~= ports@);
                },
                Step::List(port, ports) => {
                    assert(ports@.take(ports@.len() as int) =~= ports@);
                },
                Step::Str(a, _, b) => {
                    assert(b@.take(b@.len() as int) =~= b@);
                },
                Step::InlineIvy(binds, root, _) => {
                    assert(binds@.take(binds@.len() as int) =~= binds@);
                },
                _ => (),
            }
            assert(r@ =~= step_ports(*self));
        }
        r
    }
}

/// An operation against a local variable.
#[derive(Debug, Clone, Copy, PartialEq, Eq, Structural)]
pub enum Invocation {
    /// Discard the pending value.
    Erase,
    /// Register the port as a pending consumer of the current value.
    Get(Port),
    /// Register the port as a pending producer supplying a value.
    Hedge(Port),
    /// Consume through the port, then close the epoch.
    Take(Port),
    /// Discard what is pending, then start fresh producing at the port.
    Assign(Port),
    /// Read the old value out through the first port and supply the new
    /// one through the second.
    Mut(Port, Port),
}

/// The ports an invocation references, in declaration order.
pub open spec fn invocation_ports(i: Invocation) -> Seq<Port> {
    match i {
        Invocation::Erase => Seq::<Port>::empty(),
        Invocation::Get(a) => seq![a],
        Invocation::Hedge(a) => seq![a],
        Invocation::Take(a) => seq![a],
        Invocation::Assign(a) => seq![a],
        Invocation::Mut(a, b) => seq![a, b],
    }
}

/// A typed leaf reference used within one stage.
#[derive(Debug, Clone, Copy, PartialEq, Eq, Structural)]
pub enum Port {
    /// An erase leaf.
    Erase,
    /// A constant reference, resolved through the specialization table.
    ConstRel(ConstRelId),
    /// A 32-bit unsigned integer literal.
    N32(u32),
    /// The bit pattern of a 32-bit floating-point literal; carried
    /// through to the output unread.
    F32(u32),
    /// A wire, scoped to the stage that allocated it.
    Wire(WireId),
    /// A reference that failed to resolve because of an earlier reported
    /// error; degrades to an erase leaf.
    Error(ErrorGuaranteed),
}

/// A reference to an interface plus optional carried data: exiting the
/// current stage to resume control at another stage.
#[derive(Debug, Clone, Copy, PartialEq, Eq, Structural)]
pub struct Transfer {
    pub interface: InterfaceId,
    pub data: Option<Port>,
}

impl Transfer {
    /// A transfer that carries no data.
    pub fn unconditional(interface: InterfaceId) -> (r: Transfer)
        ensures
            r.interface == interface,
            r.data is None,
    {
        Transfer { interface, data: None }
    }
}

/// Everything of a stage except its step list and wire counter is
/// untouched by the builder methods below.
pub open spec fn stage_frame(a: Stage, b: Stage) -> bool {
    &&& a.id == b.id
    &&& a.interface == b.interface
    &&& a.layer == b.layer
    &&& a.header == b.header
    &&& a.declarations == b.declarations
    &&& a.transfer == b.transfer
}

impl Stage {
    /// Allocate a fresh wire: both leaves of its one connection.
    pub fn new_wire(&mut self) -> (r: (Port, Port))
        requires
            old(self).wires < usize::MAX,
        ensures
            stage_frame(*old(self), *final(self)),
            final(self).steps == old(self).steps,
            final(self).wires == old(self).wires + 1,
            r.0 == Port::Wire(old(self).wires),
            r.1 == Port::Wire(old(self).wires),
    {
        let w = self.wires;
        self.wires = self.wires + 1;
        (Port::Wire(w), Port::Wire(w))
    }

    /// Discard a port: a wire is linked to an erase leaf; any other port
    /// needs no step.
    pub fn erase(&mut self, port: Port)
        ensures
            stage_frame(*old(self), *final(self)),
            final(self).wires == old(self).wires,
            final(self).steps@ == (if port is Wire {
                old(self).steps@.push(Step::Link(port, Port::Erase))
            } else {
                old(self).steps@
            }),
    {
        if matches!(port, Port::Wire(..)) {
            self.steps.push(Step::Link(port, Port::Erase));
        }
    }

    /// Register `to` as a pending consumer of `local`.
    pub fn get_local_to(&mut self, local: Local, to: Port)
        ensures
            stage_frame(*old(self), *final(self)),
            final(self).wires == old(self).wires,
            final(self).steps@ == old(self).steps@.push(
                Step::Invoke(local, Invocation::Get(to)),
            ),
    {
        self.steps.push(Step::Invoke(local, Invocation::Get(to)));
    }

    /// Register `to` as a pending producer of `local`.
    pub fn hedge_local_to(&mut self, local: Local, to: Port)
        ensures
            stage_frame(*old(self), *final(self)),
            final(self).wires == old(self).wires,
            final(self).steps@ == old(self).steps@.push(
                Step::Invoke(local, Invocation::Hedge(to)),
            ),
    {
        self.steps.push(Step::Invoke(local, Invocation::Hedge(to)));
    }

    /// Consume `local` through `to`, then close its epoch.
    pub fn take_local_to(&mut self, local: Local, to: Port)
        ensures
            stage_frame(*old(self), *final(self)),
            final(self).wires == old(self).wires,
            final(self).steps@ == old(self).steps@.push(
                Step::Invoke(local, Invocation::Take(to)),
            ),
    {
        self.steps.push(Step::Invoke(local, Invocation::Take(to)));
    }

    /// Discard what `local` holds, then start fresh producing at `to`.
    pub fn set_local_to(&mut self, local: Local, to: Port)
        ensures
            stage_frame(*old(self), *final(self)),
            final(self).wires == old(self).wires,
            final(self).steps@ == old(self).steps@.push(
                Step::Invoke(local, Invocation::Assign(to)),
            ),
    {
        self.steps.push(Step::Invoke(local, Invocation::Assign(to)));
    }

    /// Read `local` out through `o` and supply its new value through `i`.
    pub fn mut_local_to(&mut self, local: Local, o: Port, i: Port)
        ensures
            stage_frame(*old(self), *final(self)),
            final(self).wires == old(self).wires,
            final(self).steps@ == old(self).steps@.push(
                Step::Invoke(local, Invocation::Mut(o, i)),
            ),
    {
        self.steps.push(Step::Invoke(local, Invocation::Mut(o, i)));
    }

    /// Consume `local` through a fresh wire and hand back its other leaf.
    pub fn get_local(&mut self, local: Local) -> (r: Port)
        requires
            old(self).wires < usize::MAX,
        ensures
            stage_frame(*old(self), *final(self)),
            final(self).wires == old(self).wires + 1,
            final(self).steps@ == old(self).steps@.push(
                Step::Invoke(local, Invocation::Get(Port::Wire(old(self).wires))),
            ),
            r == Port::Wire(old(self).wires),
    {
        let wire = self.new_wire();
        self.get_local_to(local, wire.0);
        wire.1
    }

    /// Produce into `local` through a fresh wire and hand back its other
    /// leaf.
    pub fn hedge_local(&mut self, local: Local) -> (r: Port)
        requires
            old(self).wires < usize::MAX,
        ensures
            stage_frame(*old(self), *final(self)),
            final(self).wires == old(self).wires + 1,
            final(self).steps@ == old(self).steps@.push(
                Step::Invoke(local, Invocation::Hedge(Port::Wire(old(self).wires))),
            ),
            r == Port::Wire(old(self).wires),
    {
        let wire = self.new_wire();
        self.hedge_local_to(local, wire.0);
        wire.1
    }

    /// Take `local` through a fresh wire and hand back its other leaf.
    pub fn take_local(&mut self, local: Local) -> (r: Port)
        requires
            old(self).wires < usize::MAX,
        ensures
            stage_frame(*old(self), *final(self)),
            final(self).wires == old(self).wires + 1,
            final(self).steps@ == old(self).steps@.push(
                Step::Invoke(local, Invocation::Take(Port::Wire(old(self).wires))),
            ),
            r == Port::Wire(old(self).wires),
    {
        let wire = self.new_wire();
        self.take_local_to(local, wire.0);
        wire.1
    }

    /// Assign `local` through a fresh wire and hand back its other leaf.
    pub fn set_local(&mut self, local: Local) -> (r: Port)
        requires
            old(self).wires < usize::MAX,
        ensures
            stage_frame(*old(self), *final(self)),
            final(self).wires == old(self).wires + 1,
            final(self).steps@ == old(self).steps@.push(
                Step::Invoke(local, Invocation::Assign(Port::Wire(old(self).wires))),
            ),
            r == Port::Wire(old(self).wires),
    {
        let wire = self.new_wire();
        self.set_local_to(local, wire.0);
        wire.1
    }

    /// Mutate `local` through two fresh wires: the old value's leaf and
    /// the new value's leaf.
    pub fn mut_local(&mut self, local: Local) -> (r: (Port, Port))
        requires
            old(self).wires < usize::MAX - 1,
        ensures
            stage_frame(*old(self), *final(self)),
            final(self).wires == old(self).wires + 2,
            final(self).steps@ == old(self).steps@.push(
                Step::Invoke(
                    local,
                    Invocation::Mut(
                        Port::Wire(old(self).wires),
                        Port::Wire((old(self).wires + 1) as usize),
                    ),
                ),
            ),
            r.0 == Port::Wire(old(self).wires),
            r.1 == Port::Wire((old(self).wires + 1) as usize),
    {
        let o = self.new_wire();
        let i = self.new_wire();
        self.mut_local_to(local, o.0, i.0);
        (o.1, i.1)
    }

    /// Discard whatever `local` holds.
    pub fn erase_local(&mut self, local: Local)
        ensures
            stage_frame(*old(self), *final(self)),
            final(self).wires == old(self).wires,
            final(self).steps@ == old(self).steps@.push(
                Step::Invoke(local, Invocation::Erase),
            ),
    {
        self.steps.push(Step::Invoke(local, Invocation::Erase));
    }

    /// Duplicate a port into two fresh wires.
    pub fn dup(&mut self, p: Port) -> (r: (Port, Port))
        requires
            old(self).wires < usize::MAX - 1,
        ensures
            stage_frame(*old(self), *final(self)),
            final(self).wires == old(self).wires + 2,
            final(self).steps@ == old(self).steps@.push(
                Step::Dup(
                    p,
                    Port::Wire(old(self).wires),
                    Port::Wire((old(self).wires + 1) as usize),
                ),
            ),
            r.0 == Port::Wire(old(self).wires),
            r.1 == Port::Wire((old(self).wires + 1) as usize),
    {
        let a = self.new_wire();
        let b = self.new_wire();
        self.steps.push(Step::Dup(p, a.0, b.0));
        (a.1, b.1)
    }

    /// Apply an external binary operator, its result on a fresh wire.
    pub fn ext_fn(&mut self, name: &str, swap: bool, lhs: Port, rhs: Port) -> (r: Port)
        requires
            old(self).wires < usize::MAX,
        ensures
            stage_frame(*old(self), *final(self)),
            final(self).wires == old(self).wires + 1,
            final(self).steps@.len() == old(self).steps@.len() + 1,
            final(self).steps@.take(old(self).steps@.len() as int) == old(self).steps@,
            (final(self).steps@.last() matches Step::ExtFn(n, sw, a, b, o) && n@ == name@ && sw
                == swap && a == lhs && b == rhs && o == Port::Wire(old(self).wires)),
            r == Port::Wire(old(self).wires),
    {
        let out = self.new_wire();
        self.steps.push(Step::ExtFn(name.to_owned(), swap, lhs, rhs, out.0));
        proof {
            assert(final(self).steps@.take(old(self).steps@.len() as int) =~= old(self).steps@);
        }
        out.1
    }

    /// Build a reference cell over a value/space pair, the cell on a
    /// fresh wire.
    pub fn ref_place(&mut self, place: (Port, Port)) -> (r: Port)
        requires
            old(self).wires < usize::MAX,
        ensures
            stage_frame(*old(self), *final(self)),
            final(self).wires == old(self).wires + 1,
            final(self).steps@ == old(self).steps@.push(
                Step::Ref(Port::Wire(old(self).wires), place.0, place.1),
            ),
            r == Port::Wire(old(self).wires),
    {
        let wire = self.new_wire();
        self.steps.push(Step::Ref(wire.0, place.0, place.1));
        wire.1
    }
}

} // verus!
