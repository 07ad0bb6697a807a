use vine::emit::{Chart, Fragment, Rels, Specialization, Specializations};
use vine::engine::{emit_main, emit_spec};
use vine::net::{Nets, Tree};
use vine::vir::{Header, Interface, InterfaceKind, Port, Stage, Step, Transfer, Vir};

fn plain_stage(id: usize, interface: usize, steps: Vec<Step>) -> Stage {
    Stage {
        id,
        interface,
        layer: 0,
        header: Header::Empty,
        declarations: Vec::new(),
        steps,
        transfer: None,
        wires: 0,
    }
}

fn targeted(id: usize, kind: InterfaceKind, incoming: usize) -> Interface {
    let mut itf = Interface::new(id, 0, kind);
    itf.incoming = incoming;
    itf
}

fn single_spec(path: &str) -> (Chart, Specializations, Vec<Fragment>) {
    let chart = Chart { enums: Vec::new() };
    let spz = Specialization {
        fragment: 0,
        index: 0,
        singular: true,
        rels: Rels { consts: Vec::new(), fns: Vec::new() },
    };
    let specs = Specializations { specs: vec![Some(spz)] };
    let fragments = vec![Fragment { path: path.to_string() }];
    (chart, specs, fragments)
}

#[test]
fn one_stage_becomes_one_named_network() {
    let (chart, specs, fragments) = single_spec("main::f");
    let vir = Vir {
        locals: 0,
        layers: Vec::new(),
        interfaces: vec![targeted(0, InterfaceKind::Fn { call: 0, fork: None, drop: None }, 1)],
        stages: vec![plain_stage(0, 0, vec![Step::Link(Port::N32(1), Port::N32(2))])],
        globals: Vec::new(),
        closures: Vec::new(),
    };
    let virs = vec![vir];
    let mut nets = Nets::new();
    let mut labels: usize = 0;
    emit_spec(&chart, &specs, &fragments, &virs, &mut nets, &mut labels, 0).unwrap();
    assert_eq!(nets.entries.len(), 1);
    assert_eq!(nets.entries[0].0, "main::f");
    assert_eq!(nets.entries[0].1.root, Tree::Erase);
    assert_eq!(nets.entries[0].1.pairs, vec![(Tree::N32(1), Tree::N32(2))]);
    assert_eq!(labels, 0);
}

#[test]
fn inlinable_stage_is_spliced_into_its_caller() {
    let (chart, specs, fragments) = single_spec("main::g");
    let vir = Vir {
        locals: 0,
        layers: Vec::new(),
        interfaces: vec![
            targeted(0, InterfaceKind::Fn { call: 0, fork: None, drop: None }, 1),
            targeted(1, InterfaceKind::Unconditional(1), 1),
        ],
        stages: vec![
            plain_stage(0, 0, vec![Step::Transfer(Transfer { interface: 1, data: None })]),
            plain_stage(1, 1, vec![Step::Link(Port::N32(7), Port::N32(8))]),
        ],
        globals: Vec::new(),
        closures: Vec::new(),
    };
    let virs = vec![vir];
    let mut nets = Nets::new();
    let mut labels: usize = 0;
    emit_spec(&chart, &specs, &fragments, &virs, &mut nets, &mut labels, 0).unwrap();
    // The inlinable interface gets no network of its own; its stage's
    // equations surface inside the caller's network.
    assert_eq!(nets.entries.len(), 1);
    assert_eq!(nets.entries[0].0, "main::g");
    assert_eq!(nets.entries[0].1.pairs, vec![(Tree::N32(7), Tree::N32(8))]);
}

#[test]
fn shared_stage_is_referred_to_by_name() {
    let (chart, specs, fragments) = single_spec("p");
    let vir = Vir {
        locals: 0,
        layers: Vec::new(),
        interfaces: vec![
            targeted(0, InterfaceKind::Fn { call: 0, fork: None, drop: None }, 1),
            targeted(1, InterfaceKind::Unconditional(1), 2),
        ],
        stages: vec![
            plain_stage(0, 0, vec![Step::Transfer(Transfer { interface: 1, data: None })]),
            plain_stage(1, 1, vec![Step::Link(Port::N32(7), Port::N32(8))]),
        ],
        globals: Vec::new(),
        closures: Vec::new(),
    };
    let virs = vec![vir];
    let mut nets = Nets::new();
    let mut labels: usize = 0;
    emit_spec(&chart, &specs, &fragments, &virs, &mut nets, &mut labels, 0).unwrap();
    // Two incoming transfers: the target keeps a network of its own and
    // the caller pairs a named reference against the target's boundary.
    assert_eq!(nets.entries.len(), 2);
    assert_eq!(nets.entries[0].0, "p");
    assert_eq!(
        nets.entries[0].1.pairs,
        vec![(Tree::Global("p::1".to_string()), Tree::Erase)],
    );
    assert_eq!(nets.entries[1].0, "p::1");
    assert_eq!(nets.entries[1].1.pairs, vec![(Tree::N32(7), Tree::N32(8))]);
}

#[test]
fn entry_network_names_the_outermost_closure_call_stage() {
    let fragments = vec![Fragment { path: "main".to_string() }];
    let vir = Vir {
        locals: 0,
        layers: Vec::new(),
        interfaces: vec![targeted(0, InterfaceKind::Fn { call: 2, fork: None, drop: None }, 0)],
        stages: Vec::new(),
        globals: Vec::new(),
        closures: vec![0],
    };
    let virs = vec![vir];
    let mut nets = Nets::new();
    emit_main(&fragments, &virs, &mut nets, 0).unwrap();
    assert_eq!(nets.entries.len(), 1);
    assert_eq!(nets.entries[0].0, "::");
    assert_eq!(nets.entries[0].1.root, Tree::Global("main::2".to_string()));
    assert!(nets.entries[0].1.pairs.is_empty());
}

#[test]
fn builders_lay_steps_down_in_order() {
    let mut stage = plain_stage(0, 0, Vec::new());
    let (w0, w1) = stage.new_wire();
    assert_eq!(w0, Port::Wire(0));
    assert_eq!(w1, Port::Wire(0));
    let got = stage.get_local(3);
    assert_eq!(got, Port::Wire(1));
    stage.set_local_to(3, Port::N32(5));
    stage.erase(Port::Wire(0));
    stage.erase(Port::N32(9));
    let out = stage.ext_fn("n32_add", false, Port::N32(1), Port::N32(2));
    assert_eq!(out, Port::Wire(2));
    assert_eq!(stage.wires, 3);
    assert_eq!(stage.steps.len(), 4);
    assert_eq!(
        stage.steps[1],
        Step::Invoke(3, vine::vir::Invocation::Assign(Port::N32(5))),
    );
    assert_eq!(stage.steps[2], Step::Link(Port::Wire(0), Port::Erase));
    assert_eq!(
        stage.steps[3],
        Step::ExtFn("n32_add".to_string(), false, Port::N32(1), Port::N32(2), Port::Wire(2)),
    );
}
