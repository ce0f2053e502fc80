use hlbc_explorer::error::Error;
use hlbc_explorer::model::{FunData, Module};

fn fun(findex: usize, debug_info: Option<Vec<(usize, usize)>>) -> FunData {
    FunData { findex, debug_info }
}

fn module_with_functions(funs: Vec<FunData>) -> Module {
    Module { types: Vec::new(), globals: Vec::new(), functions: funs, debug_files: None }
}

#[test]
fn transplant_replaces_destination_slot() {
    let src = module_with_functions(vec![
        fun(100, None),
        fun(101, Some(vec![(2, 7), (2, 8)])),
    ]);
    let mut dest = module_with_functions(vec![fun(1, None), fun(2, None)]);

    let (src_pos, dest_pos) = dest.copy_function(&src, "101", "0").unwrap();
    assert_eq!((src_pos, dest_pos), (1, 0));

    // the destination slot now renders exactly as the source function
    assert_eq!(dest.functions[0].findex, 101);
    assert_eq!(dest.functions[0].debug_info, Some(vec![(2, 7), (2, 8)]));
    // the untouched slot is unchanged
    assert_eq!(dest.functions[1].findex, 2);
    // looking the copy up by its function index finds the patched slot
    assert_eq!(dest.function_by_index("101"), Ok(0));
}

#[test]
fn transplant_failures_leave_module_unchanged() {
    let src = module_with_functions(vec![fun(100, None)]);
    let mut dest = module_with_functions(vec![fun(1, None)]);

    // unresolvable source function index
    assert_eq!(dest.copy_function(&src, "55", "0"), Err(Error::FunctionNotFound));
    // destination slot outside the function table: an internal fault
    assert_eq!(dest.copy_function(&src, "100", "9"), Err(Error::Internal));
    // malformed index text
    assert_eq!(dest.copy_function(&src, "a", "0"), Err(Error::InvalidIndex));
    assert_eq!(dest.copy_function(&src, "100", ""), Err(Error::InvalidIndex));

    assert_eq!(dest.functions.len(), 1);
    assert_eq!(dest.functions[0].findex, 1);
    assert!(dest.functions[0].debug_info.is_none());
}

#[test]
fn prior_duplicate_survives_transplant() {
    let src = module_with_functions(vec![fun(100, Some(vec![(0, 1)]))]);
    let mut dest = module_with_functions(vec![fun(1, None)]);
    dest.debug_files = Some(vec!["Main.hx".to_string()]);

    // a handle taken before the patch: a deep copy shares nothing
    let before = dest.duplicate();
    dest.copy_function(&src, "100", "0").unwrap();

    assert_eq!(dest.functions[0].findex, 100);
    // the pre-patch holder still sees the original function
    assert_eq!(before.functions[0].findex, 1);
    assert!(before.functions[0].debug_info.is_none());
    assert_eq!(before.list_debug_files(), vec!["Main.hx".to_string()]);
}

#[test]
fn duplicate_is_deep_and_equal() {
    let mut m = module_with_functions(vec![fun(4, Some(vec![(1, 2)]))]);
    m.debug_files = Some(vec!["A.hx".to_string(), "B.hx".to_string()]);
    let d = m.duplicate();
    assert_eq!(d.functions[0].findex, 4);
    assert_eq!(d.functions[0].debug_info, Some(vec![(1, 2)]));
    assert_eq!(d.list_debug_files(), m.list_debug_files());
    assert_eq!(d.list_classes(true), m.list_classes(true));
}
