use vine::emit::{Chart, Fragment, Rels, Specialization, Specializations, VirEmitter};
use vine::names::{dup_string, stage_string, wire_string};
use vine::net::{n_ary, Fault, Net, Nets, Tree};
use vine::vir::{Interface, InterfaceKind, Port, Transfer, Vir};

fn var(s: &str) -> Tree {
    Tree::Var(s.to_string())
}

fn comb(l: &str, a: Tree, b: Tree) -> Tree {
    Tree::Comb(l.to_string(), Box::new(a), Box::new(b))
}

fn empty_vir() -> Vir {
    Vir {
        locals: 0,
        layers: Vec::new(),
        interfaces: Vec::new(),
        stages: Vec::new(),
        globals: Vec::new(),
        closures: Vec::new(),
    }
}

fn empty_specialization() -> Specialization {
    Specialization { fragment: 0, index: 0, singular: true, rels: Rels { consts: Vec::new(), fns: Vec::new() } }
}

#[test]
fn decimal_names_render_exactly() {
    assert_eq!(wire_string(0), "w0");
    assert_eq!(wire_string(10), "w10");
    assert_eq!(wire_string(907), "w907");
    assert_eq!(dup_string(7), "dup7");
    assert_eq!(dup_string(120), "dup120");
}

#[test]
fn stage_names_follow_the_scheme() {
    assert_eq!(stage_string("a::b", true, 0, 0), "a::b");
    assert_eq!(stage_string("a::b", false, 3, 0), "a::b::3");
    assert_eq!(stage_string("a::b", true, 3, 2), "a::b::2");
    assert_eq!(stage_string("a::b", false, 3, 2), "a::b::3::2");
}

#[test]
fn naming_is_deterministic() {
    let once = stage_string("m::f", false, 1, 4);
    let twice = stage_string("m::f", false, 1, 4);
    assert_eq!(once, twice);
}

#[test]
fn n_ary_of_none_one_and_many() {
    assert_eq!(n_ary("x", vec![]), Tree::Erase);
    assert_eq!(n_ary("x", vec![var("a")]), var("a"));
    assert_eq!(
        n_ary("x", vec![var("a"), var("b"), var("c")]),
        comb("x", var("a"), comb("x", var("b"), var("c"))),
    );
}

#[test]
fn nets_refuse_a_name_collision() {
    let mut nets = Nets::new();
    nets.insert("a".to_string(), Net { root: Tree::Erase, pairs: Vec::new() }).unwrap();
    let r = nets.insert("a".to_string(), Net { root: Tree::Erase, pairs: Vec::new() });
    assert_eq!(r, Err(Fault::NameClash));
    let ok = nets.insert("b".to_string(), Net { root: Tree::Erase, pairs: Vec::new() });
    assert!(ok.is_ok());
}

#[test]
fn ports_lower_with_the_running_wire_offset() {
    let chart = Chart { enums: Vec::new() };
    let specs = Specializations { specs: Vec::new() };
    let fragments: Vec<Fragment> = Vec::new();
    let spz = empty_specialization();
    let vir = empty_vir();
    let mut em = VirEmitter {
        chart: &chart,
        specs: &specs,
        fragments: &fragments,
        spec_id: 0,
        specialization: &spz,
        vir: &vir,
        locals: Vec::new(),
        pairs: Vec::new(),
        wire_offset: 5,
        wires: 0,
        dup_labels: 0,
    };
    assert_eq!(em.emit_port(&Port::Erase), Ok(Tree::Erase));
    assert_eq!(em.emit_port(&Port::N32(9)), Ok(Tree::N32(9)));
    assert_eq!(em.emit_port(&Port::F32(0x3f80_0000)), Ok(Tree::F32(0x3f80_0000)));
    assert_eq!(em.emit_port(&Port::Wire(3)), Ok(var("w8")));
    assert_eq!(
        em.emit_port(&Port::Error(vine::vir::ErrorGuaranteed)),
        Ok(Tree::Erase),
    );
    em.wire_offset = 0;
    assert_eq!(em.emit_port(&Port::Wire(0)), Ok(var("w0")));
}

#[test]
fn unresolved_constant_degrades_to_erase() {
    let chart = Chart { enums: Vec::new() };
    let specs = Specializations { specs: Vec::new() };
    let fragments: Vec<Fragment> = Vec::new();
    let mut spz = empty_specialization();
    spz.rels.consts.push(Err(vine::vir::ErrorGuaranteed));
    let vir = empty_vir();
    let em = VirEmitter {
        chart: &chart,
        specs: &specs,
        fragments: &fragments,
        spec_id: 0,
        specialization: &spz,
        vir: &vir,
        locals: Vec::new(),
        pairs: Vec::new(),
        wire_offset: 0,
        wires: 0,
        dup_labels: 0,
    };
    assert_eq!(em.emit_port(&Port::ConstRel(0)), Ok(Tree::Erase));
    assert_eq!(em.emit_port(&Port::ConstRel(1)), Err(Fault::BrokenRef));
}

#[test]
fn resolved_constant_becomes_a_named_reference() {
    let chart = Chart { enums: Vec::new() };
    let fragments = vec![Fragment { path: "m::k".to_string() }];
    let mut spz = empty_specialization();
    spz.rels.consts.push(Ok(0));
    let specs = Specializations { specs: vec![Some(empty_specialization())] };
    let vir = empty_vir();
    let em = VirEmitter {
        chart: &chart,
        specs: &specs,
        fragments: &fragments,
        spec_id: 0,
        specialization: &spz,
        vir: &vir,
        locals: Vec::new(),
        pairs: Vec::new(),
        wire_offset: 0,
        wires: 0,
        dup_labels: 0,
    };
    assert_eq!(em.emit_port(&Port::ConstRel(0)), Ok(Tree::Global("m::k".to_string())));
}

#[test]
fn list_of_two_keeps_its_end_wire_open() {
    let chart = Chart { enums: Vec::new() };
    let specs = Specializations { specs: Vec::new() };
    let fragments: Vec<Fragment> = Vec::new();
    let spz = empty_specialization();
    let vir = empty_vir();
    let mut em = VirEmitter {
        chart: &chart,
        specs: &specs,
        fragments: &fragments,
        spec_id: 0,
        specialization: &spz,
        vir: &vir,
        locals: Vec::new(),
        pairs: Vec::new(),
        wire_offset: 0,
        wires: 0,
        dup_labels: 0,
    };
    let tree = em.emit_list(vec![var("x"), var("y")]).unwrap();
    let buffer = comb("tup", var("x"), comb("tup", var("y"), var("w0")));
    assert_eq!(tree, comb("tup", Tree::N32(2), comb("tup", buffer, var("w0"))));
    assert_eq!(em.wires, 1);
}

#[test]
fn enum_construction_erases_every_other_variant() {
    let chart = Chart { enums: Vec::new() };
    let specs = Specializations { specs: Vec::new() };
    let fragments: Vec<Fragment> = Vec::new();
    let spz = empty_specialization();
    let vir = empty_vir();
    let mut em = VirEmitter {
        chart: &chart,
        specs: &specs,
        fragments: &fragments,
        spec_id: 0,
        specialization: &spz,
        vir: &vir,
        locals: Vec::new(),
        pairs: Vec::new(),
        wire_offset: 0,
        wires: 0,
        dup_labels: 0,
    };
    let tree = em.emit_enum_tree(3, 1, vec![var("f")]).unwrap();
    let filled = comb("enum", var("f"), var("w0"));
    assert_eq!(
        tree,
        comb(
            "enum",
            Tree::Erase,
            comb("enum", filled, comb("enum", Tree::Erase, var("w0"))),
        ),
    );
}

#[test]
fn interfaces_are_inlinable_only_when_single_entry_unconditional() {
    let mut itf = Interface::new(1, 0, InterfaceKind::Unconditional(2));
    assert!(!itf.inline());
    itf.incoming = 1;
    assert!(itf.inline());
    itf.incoming = 2;
    assert!(!itf.inline());
    let entry = Interface::new(0, 0, InterfaceKind::Unconditional(2));
    assert!(!entry.inline());
    let mut branch = Interface::new(1, 0, InterfaceKind::Branch(2, 3));
    branch.incoming = 1;
    assert!(!branch.inline());
}

#[test]
fn interface_kinds_enumerate_their_stages() {
    assert_eq!(InterfaceKind::Unconditional(4).stages(), vec![4]);
    assert_eq!(InterfaceKind::Branch(1, 2).stages(), vec![1, 2]);
    assert_eq!(InterfaceKind::Match(0, vec![5, 6, 7]).stages(), vec![5, 6, 7]);
    assert_eq!(
        InterfaceKind::Fn { call: 1, fork: Some(2), drop: None }.stages(),
        vec![1, 2],
    );
    let t = Transfer::unconditional(3);
    assert_eq!(t.interface, 3);
    assert_eq!(t.data, None);
}
