use hlbc_explorer::error::Error;
use hlbc_explorer::model::{FieldDecl, FunData, Module, ObjData, TyData};

fn field(name: &str, type_ref: usize) -> FieldDecl {
    FieldDecl { name: name.to_string(), type_ref }
}

fn fun(findex: usize) -> FunData {
    FunData { findex, debug_info: None }
}

fn bare_obj(name: &str) -> ObjData {
    ObjData {
        name: name.to_string(),
        super_type: None,
        global: 0,
        fields_len: 0,
        own_fields: Vec::new(),
        protos: Vec::new(),
        bindings: Vec::new(),
        from_std: false,
    }
}

/// One class `Foo`: one accessor-bound own field, one plain own field, no
/// static view, one virtual method slot.
fn scenario_module() -> Module {
    let mut o = bare_obj("Foo");
    o.fields_len = 2;
    o.own_fields = vec![field("hidden", 3), field("plain", 4)];
    // global slot 0 is accessor-backed; function index 9 is its accessor.
    o.bindings = vec![(0, 9)];
    o.protos = vec![7];
    Module {
        types: vec![TyData::Obj(o)],
        globals: Vec::new(),
        functions: vec![fun(7), fun(9)],
        debug_files: None,
    }
}

#[test]
fn scenario_one_plain_field_survives() {
    let m = scenario_module();
    let (stub, idxs) = m.stub_class("0").unwrap();
    assert_eq!(stub.name, "Foo");
    assert!(stub.parent.is_none());
    // the accessor-backed field is absent; only the plain field survives
    assert_eq!(stub.fields.len(), 1);
    assert_eq!(stub.fields[0].name, "plain");
    assert!(!stub.fields[0].is_static);
    assert_eq!(stub.fields[0].type_ref, 4);
    // one method per flat index entry: the accessor binding, then the proto
    assert_eq!(stub.methods.len(), idxs.len());
    assert_eq!(idxs, vec![9usize, 7usize]);
    assert_eq!(stub.methods[0].fun, 9);
    assert_eq!(stub.methods[1].fun, 7);
    assert!(stub.methods.iter().all(|ms| ms.is_static && !ms.is_dynamic));
}

#[test]
fn scenario_without_binding_yields_single_proto_method() {
    let mut m = scenario_module();
    if let TyData::Obj(o) = &mut m.types[0] {
        o.bindings = Vec::new();
    }
    let (stub, idxs) = m.stub_class("0").unwrap();
    // with no accessor binding both own fields survive and the proto is the
    // single method
    assert_eq!(stub.fields.len(), 2);
    assert_eq!(stub.methods.len(), 1);
    assert_eq!(idxs, vec![7usize]);
    assert_eq!(stub.methods[0].fun, 7);
}

#[test]
fn stub_merges_static_view_fields_and_methods() {
    let mut a = bare_obj("A");
    a.global = 1;
    a.fields_len = 1;
    a.own_fields = vec![field("x", 2)];
    a.bindings = vec![];
    a.protos = vec![5];

    let mut s = bare_obj("A$statics");
    s.fields_len = 2;
    s.own_fields = vec![field("count", 3), field("secret", 3)];
    // slot 1 of the static view is accessor-backed by function 6
    s.bindings = vec![(1, 6)];

    let m = Module {
        types: vec![TyData::Obj(a), TyData::Struct(s)],
        globals: vec![1],  // global slot 1 (1-based) holds type 1
        functions: vec![fun(5), fun(6)],
        debug_files: None,
    };
    let (stub, idxs) = m.stub_class("0").unwrap();
    // instance fields first, then surviving statics
    assert_eq!(stub.fields.len(), 2);
    assert_eq!(stub.fields[0].name, "x");
    assert!(!stub.fields[0].is_static);
    assert_eq!(stub.fields[1].name, "count");
    assert!(stub.fields[1].is_static);
    // methods: class bindings (none), static bindings, then protos
    assert_eq!(idxs, vec![6usize, 5usize]);
    assert_eq!(stub.methods.len(), 2);
}

#[test]
fn stub_reports_parent_class_name() {
    let mut child = bare_obj("Child");
    child.super_type = Some(1);
    let m = Module {
        types: vec![TyData::Obj(child), TyData::Obj(bare_obj("Base"))],
        globals: Vec::new(),
        functions: Vec::new(),
        debug_files: None,
    };
    let (stub, idxs) = m.stub_class("0").unwrap();
    assert_eq!(stub.parent, Some("Base".to_string()));
    assert!(idxs.is_empty());
}

#[test]
fn stub_parent_not_class_shaped_is_absent() {
    let mut child = bare_obj("Child");
    child.super_type = Some(1);
    let m = Module {
        types: vec![TyData::Obj(child), TyData::Other { from_std: false, wrapper: false }],
        globals: Vec::new(),
        functions: Vec::new(),
        debug_files: None,
    };
    let (stub, _) = m.stub_class("0").unwrap();
    assert!(stub.parent.is_none());
}

#[test]
fn stub_of_non_object_fails() {
    let m = Module {
        types: vec![TyData::Other { from_std: false, wrapper: true }],
        globals: Vec::new(),
        functions: Vec::new(),
        debug_files: None,
    };
    assert!(matches!(m.stub_class("0"), Err(Error::NotAnObject)));
    assert!(matches!(m.stub_class("1"), Err(Error::Internal)));
    assert!(matches!(m.stub_class("nope"), Err(Error::InvalidIndex)));
}

#[test]
fn stub_broken_invariants_are_internal_faults() {
    // own field list longer than the full field list
    let mut o = bare_obj("Bad");
    o.fields_len = 0;
    o.own_fields = vec![field("ghostly", 1)];
    let m = Module {
        types: vec![TyData::Obj(o)],
        globals: Vec::new(),
        functions: Vec::new(),
        debug_files: None,
    };
    assert!(matches!(m.stub_class("0"), Err(Error::Internal)));

    // a proto whose function index resolves to nothing
    let mut o2 = bare_obj("Dangling");
    o2.protos = vec![42];
    let m2 = Module {
        types: vec![TyData::Obj(o2)],
        globals: Vec::new(),
        functions: Vec::new(),
        debug_files: None,
    };
    assert!(matches!(m2.stub_class("0"), Err(Error::Internal)));

    // a static-view reference pointing outside the global table
    let mut o3 = bare_obj("Lost");
    o3.global = 3;
    let m3 = Module {
        types: vec![TyData::Obj(o3)],
        globals: Vec::new(),
        functions: Vec::new(),
        debug_files: None,
    };
    assert!(matches!(m3.stub_class("0"), Err(Error::Internal)));
}

#[test]
fn stub_function_is_static_placeholder() {
    let m = Module {
        types: Vec::new(),
        globals: Vec::new(),
        functions: vec![fun(3)],
        debug_files: None,
    };
    let s = m.stub_function("3").unwrap();
    assert_eq!(s.fun, 3);
    assert!(s.is_static);
    assert!(!s.is_dynamic);
    assert!(matches!(m.stub_function("4"), Err(Error::FunctionNotFound)));
    assert!(matches!(m.stub_function("-3"), Err(Error::InvalidIndex)));
}
