use hlbc_explorer::error::Error;
use hlbc_explorer::model::{FieldDecl, FunData, Module, ObjData, TyData};

fn obj(name: &str, fields: Vec<FieldDecl>, fields_len: usize) -> ObjData {
    ObjData {
        name: name.to_string(),
        super_type: None,
        global: 0,
        fields_len,
        own_fields: fields,
        protos: Vec::new(),
        bindings: Vec::new(),
        from_std: false,
    }
}

fn fun(findex: usize, debug_info: Option<Vec<(usize, usize)>>) -> FunData {
    FunData { findex, debug_info }
}

fn empty_module() -> Module {
    Module { types: Vec::new(), globals: Vec::new(), functions: Vec::new(), debug_files: None }
}

#[test]
fn no_debug_table_lists_nothing() {
    let m = empty_module();
    assert_eq!(m.list_debug_files().len(), 0);
}

#[test]
fn debug_files_listed_in_order() {
    let mut m = empty_module();
    m.debug_files = Some(vec!["Main.hx".to_string(), "Other.hx".to_string()]);
    assert_eq!(m.list_debug_files(), vec!["Main.hx".to_string(), "Other.hx".to_string()]);
}

#[test]
fn functions_in_file_without_table_fails() {
    let m = empty_module();
    assert_eq!(m.functions_in_file(&"Main.hx".to_string()), Err(Error::NoDebugInfo));
}

#[test]
fn functions_in_file_unknown_file_fails() {
    let mut m = empty_module();
    m.debug_files = Some(vec!["Main.hx".to_string()]);
    assert_eq!(m.functions_in_file(&"Other.hx".to_string()), Err(Error::FileNotFound));
}

#[test]
fn functions_in_file_matches_last_debug_entry() {
    let mut m = empty_module();
    m.debug_files = Some(vec!["Main.hx".to_string(), "Other.hx".to_string()]);
    m.functions = vec![
        // last entry names file 1: matches.
        fun(10, Some(vec![(0, 1), (1, 4)])),
        // last entry names file 0: no match.
        fun(11, Some(vec![(1, 2), (0, 3)])),
        // empty debug info: silently excluded.
        fun(12, Some(Vec::new())),
        // no debug info: silently excluded.
        fun(13, None),
        // matches again.
        fun(14, Some(vec![(1, 9)])),
    ];
    assert_eq!(m.functions_in_file(&"Other.hx".to_string()), Ok(vec![0usize, 4usize]));
    assert_eq!(m.functions_in_file(&"Main.hx".to_string()), Ok(vec![1usize]));
}

#[test]
fn class_lookup_by_name() {
    let mut m = empty_module();
    m.types = vec![
        TyData::Other { from_std: false, wrapper: false },
        TyData::Obj(obj("Foo", Vec::new(), 0)),
        TyData::Obj(obj("Bar", Vec::new(), 0)),
        TyData::Obj(obj("Bar", Vec::new(), 0)),
        // a structure named Foo is not class-shaped and never matches
        TyData::Struct(obj("Foo", Vec::new(), 0)),
    ];
    assert_eq!(m.class_index_by_name(&"Foo".to_string()), Ok(1));
    assert_eq!(m.class_index_by_name(&"Bar".to_string()), Err(Error::AmbiguousName));
    assert_eq!(m.class_index_by_name(&"Baz".to_string()), Err(Error::NameNotFound));
}

#[test]
fn class_listing_filters_std() {
    let mut m = empty_module();
    let mut std_obj = obj("StdThing", Vec::new(), 0);
    std_obj.from_std = true;
    m.types = vec![
        TyData::Obj(obj("Mine", Vec::new(), 0)),
        TyData::Other { from_std: false, wrapper: true },
        TyData::Obj(std_obj),
        TyData::Struct(obj("Rec", Vec::new(), 0)),
    ];
    assert_eq!(m.list_classes(false), vec![0usize]);
    assert_eq!(m.list_classes(true), vec![0usize, 2usize]);
}

#[test]
fn class_by_index_dispatch() {
    let mut m = empty_module();
    m.types = vec![
        TyData::Other { from_std: false, wrapper: false },
        TyData::Obj(obj("Foo", Vec::new(), 0)),
    ];
    assert_eq!(m.class_by_index("1"), Ok(1));
    assert_eq!(m.class_by_index("0"), Err(Error::NotAnObject));
    assert_eq!(m.class_by_index("2"), Err(Error::Internal));
    assert_eq!(m.class_by_index("two"), Err(Error::InvalidIndex));
    assert_eq!(m.class_by_index(""), Err(Error::InvalidIndex));
    assert_eq!(m.class_by_index("99999999999999999999999999999"), Err(Error::InvalidIndex));
}

#[test]
fn function_lookup_by_decimal_index() {
    let mut m = empty_module();
    m.functions = vec![fun(5, None), fun(7, None)];
    assert_eq!(m.function_by_index("7"), Ok(1));
    assert_eq!(m.function_by_index("007"), Ok(1));
    assert_eq!(m.function_by_index("6"), Err(Error::FunctionNotFound));
    assert_eq!(m.function_by_index("7 "), Err(Error::InvalidIndex));
}

#[test]
fn decimal_index_range_boundary() {
    let mut m = empty_module();
    m.functions = vec![fun(usize::MAX, None)];
    // the largest representable index parses exactly
    assert_eq!(m.function_by_index("18446744073709551615"), Ok(0));
    // one past it overflows and is rejected as malformed
    assert_eq!(m.function_by_index("18446744073709551616"), Err(Error::InvalidIndex));
}

#[test]
fn source_file_of_class_fallback() {
    let mut m = empty_module();
    m.types = vec![TyData::Obj(obj("Plain", Vec::new(), 0))];
    assert_eq!(m.source_file_of_class("0"), Ok("lost_and_found".to_string()));
}

#[test]
fn source_file_of_class_uses_first_anchored_proto() {
    let mut m = empty_module();
    m.debug_files = Some(vec!["A.hx".to_string(), "B.hx".to_string()]);
    m.functions = vec![
        fun(20, None),  // proto without debug info: skipped
        fun(21, Some(vec![(1, 5), (0, 6)])),  // first entry names B.hx
        fun(22, Some(vec![(0, 2)])),  // later proto, never reached
    ];
    let mut o = obj("Anchored", Vec::new(), 0);
    o.protos = vec![20, 21, 22];
    m.types = vec![TyData::Obj(o)];
    assert_eq!(m.source_file_of_class("0"), Ok("B.hx".to_string()));
}

#[test]
fn source_file_skips_out_of_range_file_entry() {
    let mut m = empty_module();
    m.debug_files = Some(vec!["A.hx".to_string()]);
    m.functions = vec![
        fun(30, Some(vec![(9, 1)])),  // file index 9 outside the table: skipped
        fun(31, Some(vec![(0, 1)])),
    ];
    let mut o = obj("Skippy", Vec::new(), 0);
    o.protos = vec![30, 31];
    m.types = vec![TyData::Obj(o)];
    assert_eq!(m.source_file_of_class("0"), Ok("A.hx".to_string()));
}

#[test]
fn source_file_of_non_object_fails() {
    let mut m = empty_module();
    m.types = vec![TyData::Other { from_std: true, wrapper: false }];
    assert_eq!(m.source_file_of_class("0"), Err(Error::NotAnObject));
    assert_eq!(m.source_file_of_class("5"), Err(Error::Internal));
}

#[test]
fn error_messages_are_stable() {
    assert_eq!(Error::Internal.message(), "an internal fault occurred");
    assert_eq!(Error::InvalidIndex.message(), "index is not a valid decimal number");
    assert_eq!(Error::NoDebugInfo.message(), "no debug files found");
}
