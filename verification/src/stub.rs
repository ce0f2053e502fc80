use vstd::prelude::*;

use crate::error::Error;
use crate::model::{FieldDecl, Module, ModuleShape, ObjData, ObjShape, TyData, TyShape};
use crate::model::{fn_pos, resolves_fn};

verus! {

// ---------------------------------------------------------------------------
// Stub values and their spec shapes.
// ---------------------------------------------------------------------------

/// Spec shape of a field stub.
#[verifier::ext_equal]
pub struct FieldStubShape {
    pub name: Seq<char>,
    pub is_static: bool,
    pub type_ref: usize,
}

/// Spec shape of a method stub.
#[verifier::ext_equal]
pub struct MethodStubShape {
    pub fun: usize,
    pub is_static: bool,
    pub is_dynamic: bool,
}

/// Spec shape of a class stub.
#[verifier::ext_equal]
pub struct ClassStubShape {
    pub name: Seq<char>,
    pub parent: Option<Seq<char>>,
    pub fields: Seq<FieldStubShape>,
    pub methods: Seq<MethodStubShape>,
}

/// A synthesized data field of a class stub: name, staticness and the index
/// of its type.
pub struct FieldStub {
    pub name: String,
    pub is_static: bool,
    pub type_ref: usize,
}

/// A synthesized, body-free method placeholder referencing a function index.
/// Stubs are always presented as static and non-dynamic: a body-free
/// placeholder needs no call-convention distinction.
pub struct MethodStub {
    pub fun: usize,
    pub is_static: bool,
    pub is_dynamic: bool,
}

/// A synthesized structural stub of a class: its name, the name of its
/// parent class if one resolves, its surviving data fields (instance fields
/// first, then static ones) and its flattened method list.
pub struct ClassStub {
    pub name: String,
    pub parent: Option<String>,
    pub fields: Vec<FieldStub>,
    pub methods: Vec<MethodStub>,
}

impl View for FieldStub {
    type V = FieldStubShape;

    open spec fn view(&self) -> FieldStubShape {
        FieldStubShape { name: self.name@, is_static: self.is_static, type_ref: self.type_ref }
    }
}

impl View for MethodStub {
    type V = MethodStubShape;

    open spec fn view(&self) -> MethodStubShape {
        MethodStubShape { fun: self.fun, is_static: self.is_static, is_dynamic: self.is_dynamic }
    }
}

impl View for ClassStub {
    type V = ClassStubShape;

    open spec fn view(&self) -> ClassStubShape {
        ClassStubShape {
            name: self.name@,
            parent: match self.parent {
                Option::Some(ref s) => Option::Some(s@),
                Option::None => Option::None,
            },
            fields: self.fields@.map_values(|f: FieldStub| f@),
            methods: self.methods@.map_values(|m: MethodStub| m@),
        }
    }
}

// ---------------------------------------------------------------------------
// The synthesis, in spec.
// ---------------------------------------------------------------------------

/// The global field slot of the local field at position `i`: own fields are
/// stored as the suffix of the full field list.
pub open spec fn own_slot(o: ObjShape, i: int) -> int {
    o.fields_len - o.own_fields.len() + i
}

/// Whether the global field slot `slot` appears among the binding keys, that
/// is, whether the slot is accessor-backed rather than plain data.
pub open spec fn slot_bound(o: ObjShape, slot: int) -> bool {
    exists|k: int| 0 <= k < o.bindings.len() && o.bindings[k].0 == slot
}

/// The own field list is no longer than the full field list; the slot
/// arithmetic is meaningless otherwise.
pub open spec fn fields_ok(o: ObjShape) -> bool {
    o.own_fields.len() <= o.fields_len
}

pub open spec fn field_stub_shape(o: ObjShape, i: int, stat: bool) -> FieldStubShape {
    FieldStubShape {
        name: o.own_fields[i].name,
        is_static: stat,
        type_ref: o.own_fields[i].type_ref,
    }
}

/// The surviving field stubs among the first `n` own fields: a field is
/// skipped exactly when its global slot is accessor-backed.
pub open spec fn kept_fields_upto(o: ObjShape, stat: bool, n: int) -> Seq<FieldStubShape>
    decreases n,
{
    if n <= 0 {
        Seq::empty()
    } else if slot_bound(o, own_slot(o, n - 1)) {
        kept_fields_upto(o, stat, n - 1)
    } else {
        kept_fields_upto(o, stat, n - 1).push(field_stub_shape(o, n - 1, stat))
    }
}

pub open spec fn kept_fields(o: ObjShape, stat: bool) -> Seq<FieldStubShape> {
    kept_fields_upto(o, stat, o.own_fields.len() as int)
}

/// Whether the static-view reference of `o` can be followed without leaving
/// the global and type tables.
pub open spec fn static_view_ok(m: ModuleShape, o: ObjShape) -> bool {
    o.global == 0 || (o.global - 1 < m.globals.len() && m.globals[o.global - 1] < m.types.len())
}

/// The static view of `o`: the class data of the type of global slot
/// `global - 1`, when that type carries any; 0 means no static view.
pub open spec fn static_view_of(m: ModuleShape, o: ObjShape) -> Option<ObjShape> {
    if o.global == 0 {
        Option::None
    } else {
        match m.types[m.globals[o.global - 1] as int] {
            TyShape::Obj(s) => Option::Some(s),
            TyShape::Struct(s) => Option::Some(s),
            _ => Option::None,
        }
    }
}

/// Whether the superclass reference of `o`, if any, stays inside the type
/// table.
pub open spec fn parent_ok(m: ModuleShape, o: ObjShape) -> bool {
    match o.super_type {
        Option::Some(t) => t < m.types.len(),
        Option::None => true,
    }
}

/// The name of the superclass of `o`, when the superclass reference resolves
/// to a type that carries class data.
pub open spec fn parent_name_of(m: ModuleShape, o: ObjShape) -> Option<Seq<char>> {
    match o.super_type {
        Option::Some(t) => match m.types[t as int] {
            TyShape::Obj(s) => Option::Some(s.name),
            TyShape::Struct(s) => Option::Some(s.name),
            _ => Option::None,
        },
        Option::None => Option::None,
    }
}

/// The function indices referenced by the bindings of `o`, in stored order.
pub open spec fn bind_fidxs(o: ObjShape) -> Seq<usize> {
    o.bindings.map_values(|b: (usize, usize)| b.1)
}

/// The flat function index list of the stub of `o`: the bindings of the
/// class, then the bindings of its static view if one exists, then the
/// virtual method slots in declared order.
pub open spec fn stub_fidxs(o: ObjShape, sv: Option<ObjShape>) -> Seq<usize> {
    bind_fidxs(o) + (match sv {
        Option::Some(s) => bind_fidxs(s),
        Option::None => Seq::empty(),
    }) + o.protos
}

pub open spec fn all_resolve(m: ModuleShape, fidxs: Seq<usize>) -> bool {
    forall|k: int| 0 <= k < fidxs.len() ==> resolves_fn(m, fidxs[k])
}

pub open spec fn method_shape(fidx: usize) -> MethodStubShape {
    MethodStubShape { fun: fidx, is_static: true, is_dynamic: false }
}

/// Everything the synthesis touches is in range and resolvable. A violation
/// is an internal fault.
pub open spec fn stub_ok_obj(m: ModuleShape, o: ObjShape) -> bool {
    &&& fields_ok(o)
    &&& static_view_ok(m, o)
    &&& match static_view_of(m, o) {
        Option::Some(s) => fields_ok(s),
        Option::None => true,
    }
    &&& parent_ok(m, o)
    &&& all_resolve(m, stub_fidxs(o, static_view_of(m, o)))
}

/// The class data of the object type at position `ti` of the type table.
pub open spec fn obj_at(m: ModuleShape, ti: int) -> ObjShape {
    m.types[ti]->Obj_0
}

/// The stub that the synthesis owes for the class data `o` of module `m`.
pub open spec fn class_stub_shape(m: ModuleShape, o: ObjShape) -> ClassStubShape {
    let sv = static_view_of(m, o);
    ClassStubShape {
        name: o.name,
        parent: parent_name_of(m, o),
        fields: kept_fields(o, false) + (match sv {
            Option::Some(s) => kept_fields(s, true),
            Option::None => Seq::empty(),
        }),
        methods: stub_fidxs(o, sv).map_values(|f: usize| method_shape(f)),
    }
}

// ---------------------------------------------------------------------------
// The synthesis, executable.
// ---------------------------------------------------------------------------

/// A body-free method placeholder for the function index `fidx`.
pub fn make_method_stub(fidx: usize) -> (r: MethodStub)
    ensures
        r@ == method_shape(fidx),
{
    MethodStub { fun: fidx, is_static: true, is_dynamic: false }
}

/// Whether `slot` appears among the binding keys of `o`.
fn slot_in_bindings(o: &ObjData, slot: usize) -> (b: bool)
    ensures
        b == slot_bound(o@, slot as int),
{
    let n = o.bindings.len();
    let mut k: usize = 0;
    while k < n
        invariant
            n == o.bindings.len(),
            0 <= k <= n,
            forall|j: int| 0 <= j < k ==> o@.bindings[j].0 != slot,
        decreases n - k,
    {
        if o.bindings[k].0 == slot {
            assert(o@.bindings[k as int].0 == slot);
            return true;
        }
        k = k + 1;
    }
    false
}

/// Appends to `fields` the surviving field stubs of `o`, preserving
/// declaration order and marking each with `stat`.
fn push_kept_fields(fields: &mut Vec<FieldStub>, o: &ObjData, stat: bool)
    requires
        fields_ok(o@),
    ensures
        final(fields)@.map_values(|f: FieldStub| f@) == old(fields)@.map_values(|f: FieldStub| f@)
            + kept_fields(o@, stat),
{
    let n = o.own_fields.len();
    let base = o.fields_len - n;
    let mut i: usize = 0;
    while i < n
        invariant
            n == o.own_fields.len(),
            base == o@.fields_len - n,
            fields_ok(o@),
            0 <= i <= n,
            fields@.map_values(|f: FieldStub| f@) == old(fields)@.map_values(|f: FieldStub| f@)
                + kept_fields_upto(o@, stat, i as int),
        decreases n - i,
    {
        let slot = base + i;
        if !slot_in_bindings(o, slot) {
            let fd: &FieldDecl = &o.own_fields[i];
            let fs = FieldStub { name: fd.name.clone(), is_static: stat, type_ref: fd.type_ref };
            let ghost pre = fields@;
            proof {
                assert(o@.own_fields[i as int] == o.own_fields@[i as int]@);
                assert(fs@ == field_stub_shape(o@, i as int, stat));
            }
            fields.push(fs);
            proof {
                assert(fields@.map_values(|f: FieldStub| f@) =~= pre.map_values(
                    |f: FieldStub| f@,
                ).push(fs@));
                assert(kept_fields_upto(o@, stat, i + 1) == kept_fields_upto(
                    o@,
                    stat,
                    i as int,
                ).push(field_stub_shape(o@, i as int, stat)));
                assert(fields@.map_values(|f: FieldStub| f@) =~= old(fields)@.map_values(
                    |f: FieldStub| f@,
                ) + kept_fields_upto(o@, stat, i + 1));
            }
        } else {
            proof {
                assert(fields@.map_values(|f: FieldStub| f@) =~= old(fields)@.map_values(
                    |f: FieldStub| f@,
                ) + kept_fields_upto(o@, stat, i + 1));
            }
        }
        i = i + 1;
    }
}

/// Appends a method stub and the matching entry of the flat index list for
/// every function index of `fidxs`, after checking that each resolves to a
/// function of `m`. Reports `false` as soon as one does not.
fn push_method_stubs(
    m: &Module,
    fidxs: &Vec<usize>,
    methods: &mut Vec<MethodStub>,
    idxs: &mut Vec<usize>,
) -> (ok: bool)
    ensures
        ok ==> {
            &&& all_resolve(m@, fidxs@)
            &&& final(idxs)@ == old(idxs)@ + fidxs@
            &&& final(methods)@.map_values(|s: MethodStub| s@) == old(methods)@.map_values(
                |s: MethodStub| s@,
            ) + fidxs@.map_values(|f: usize| method_shape(f))
        },
        !ok ==> !all_resolve(m@, fidxs@),
{
    let n = fidxs.len();
    let mut k: usize = 0;
    while k < n
        invariant
            n == fidxs.len(),
            0 <= k <= n,
            idxs@ == old(idxs)@ + fidxs@.subrange(0, k as int),
            methods@.map_values(|s: MethodStub| s@) == old(methods)@.map_values(
                |s: MethodStub| s@,
            ) + fidxs@.subrange(0, k as int).map_values(|f: usize| method_shape(f)),
            forall|j: int| 0 <= j < k ==> resolves_fn(m@, fidxs@[j]),
        decreases n - k,
    {
        let fidx = fidxs[k];
        match m.find_function(fidx) {
            Some(_) => {
                let ms = make_method_stub(fidx);
                let ghost pre = methods@;
                methods.push(ms);
                idxs.push(fidx);
                proof {
                    assert(idxs@ =~= old(idxs)@ + fidxs@.subrange(0, k + 1));
                    assert(fidxs@.subrange(0, k + 1).map_values(|f: usize| method_shape(f))
                        =~= fidxs@.subrange(0, k as int).map_values(|f: usize| method_shape(f)).push(
                        method_shape(fidxs@[k as int]),
                    ));
                    assert(methods@.map_values(|s: MethodStub| s@) =~= pre.map_values(
                        |s: MethodStub| s@,
                    ).push(ms@));
                    assert(methods@.map_values(|s: MethodStub| s@) =~= old(methods)@.map_values(
                        |s: MethodStub| s@,
                    ) + fidxs@.subrange(0, k + 1).map_values(|f: usize| method_shape(f)));
                }
            },
            None => {
                return false;
            },
        }
        k = k + 1;
    }
    proof {
        assert(fidxs@.subrange(0, n as int) =~= fidxs@);
    }
    true
}

/// The function indices referenced by the bindings of `o`, in stored order.
fn collect_bind_fidxs(o: &ObjData) -> (r: Vec<usize>)
    ensures
        r@ == bind_fidxs(o@),
{
    let n = o.bindings.len();
    let mut r: Vec<usize> = Vec::new();
    let mut k: usize = 0;
    while k < n
        invariant
            n == o.bindings.len(),
            0 <= k <= n,
            r@ == o.bindings@.subrange(0, k as int).map_values(|b: (usize, usize)| b.1),
        decreases n - k,
    {
        r.push(o.bindings[k].1);
        proof {
            assert(o.bindings@.subrange(0, k + 1).map_values(|b: (usize, usize)| b.1)
                =~= o.bindings@.subrange(0, k as int).map_values(|b: (usize, usize)| b.1).push(
                o.bindings@[k as int].1,
            ));
        }
        k = k + 1;
    }
    proof {
        assert(o.bindings@.subrange(0, n as int) =~= o.bindings@);
    }
    r
}

impl Module {
    /// Synthesizes the structural stub of the class at type-table position
    /// `ti`, together with the flat list of the function indices behind its
    /// method stubs, one per method stub and in the same order.
    ///
    /// The position must name an object type; every slot reference, static
    /// view reference, superclass reference and method function index the
    /// synthesis follows must stay inside the module, else the operation
    /// reports an internal fault instead of failing abruptly.
    pub fn stub_class_at(&self, ti: usize) -> (r: Result<(ClassStub, Vec<usize>), Error>)
        ensures
            ti >= self@.types.len() ==> r == Err::<(ClassStub, Vec<usize>), Error>(
                Error::Internal,
            ),
            ti < self@.types.len() && !(self@.types[ti as int] is Obj) ==> r == Err::<
                (ClassStub, Vec<usize>),
                Error,
            >(Error::NotAnObject),
            (ti < self@.types.len() && self@.types[ti as int] is Obj && !stub_ok_obj(
                self@,
                obj_at(self@, ti as int),
            )) ==> r == Err::<(ClassStub, Vec<usize>), Error>(Error::Internal),
            (ti < self@.types.len() && self@.types[ti as int] is Obj && stub_ok_obj(
                self@,
                obj_at(self@, ti as int),
            )) ==> (r matches Ok(pair) && pair.0@ == class_stub_shape(self@, obj_at(self@, ti as int))
                && pair.1@ == stub_fidxs(
                obj_at(self@, ti as int),
                static_view_of(self@, obj_at(self@, ti as int)),
            )),
    {
        if ti >= self.types.len() {
            return Err(Error::Internal);
        }
        let obj: &ObjData = match &self.types[ti] {
            TyData::Obj(o) => o,
            _ => {
                proof {
                    assert(self@.types[ti as int] == self.types@[ti as int]@);
                }
                return Err(Error::NotAnObject);
            },
        };
        proof {
            assert(self@.types[ti as int] == self.types@[ti as int]@);
            assert(self@.types[ti as int] matches TyShape::Obj(o) && o == obj@);
        }

        // Resolve the static view, if any.
        let static_obj: Option<&ObjData> = if obj.global == 0 {
            None
        } else {
            let g = obj.global - 1;
            if g >= self.globals.len() {
                return Err(Error::Internal);
            }
            let t = self.globals[g];
            if t >= self.types.len() {
                return Err(Error::Internal);
            }
            match &self.types[t] {
                TyData::Obj(s) => Some(s),
                TyData::Struct(s) => Some(s),
                _ => None,
            }
        };
        proof {
            assert(static_view_ok(self@, obj@));
            match static_obj {
                Option::Some(s) => {
                    assert(self@.types[self@.globals[obj@.global - 1] as int]
                        == self.types@[self@.globals[obj@.global - 1] as int]@);
                    assert(static_view_of(self@, obj@) == Option::Some(s@));
                },
                Option::None => {
                    if obj@.global != 0 {
                        assert(self@.types[self@.globals[obj@.global - 1] as int]
                            == self.types@[self@.globals[obj@.global - 1] as int]@);
                    }
                    assert(static_view_of(self@, obj@) is None);
                },
            }
        }

        // Build the surviving data fields: instance fields, then statics.
        if obj.own_fields.len() > obj.fields_len {
            return Err(Error::Internal);
        }
        let mut fields: Vec<FieldStub> = Vec::new();
        push_kept_fields(&mut fields, obj, false);
        if let Some(s) = static_obj {
            if s.own_fields.len() > s.fields_len {
                return Err(Error::Internal);
            }
            push_kept_fields(&mut fields, s, true);
        }

        // Build the method stubs and the parallel function index list.
        let mut methods: Vec<MethodStub> = Vec::new();
        let mut idxs: Vec<usize> = Vec::new();
        let vb = collect_bind_fidxs(obj);
        if !push_method_stubs(self, &vb, &mut methods, &mut idxs) {
            proof {
                lemma_part_unresolved(self@, obj@, static_obj_shape(static_obj), 0);
            }
            return Err(Error::Internal);
        }
        if let Some(s) = static_obj {
            let vs = collect_bind_fidxs(s);
            if !push_method_stubs(self, &vs, &mut methods, &mut idxs) {
                proof {
                    lemma_part_unresolved(self@, obj@, static_obj_shape(static_obj), 1);
                }
                return Err(Error::Internal);
            }
        }
        if !push_method_stubs(self, &obj.protos, &mut methods, &mut idxs) {
            proof {
                lemma_part_unresolved(self@, obj@, static_obj_shape(static_obj), 2);
            }
            return Err(Error::Internal);
        }
        proof {
            assert(idxs@ =~= stub_fidxs(obj@, static_view_of(self@, obj@)));
            assert(methods@.map_values(|s: MethodStub| s@) =~= stub_fidxs(
                obj@,
                static_view_of(self@, obj@),
            ).map_values(|f: usize| method_shape(f)));
        }

        // Resolve the superclass name.
        let parent: Option<String> = match obj.super_type {
            Some(t) => {
                if t >= self.types.len() {
                    return Err(Error::Internal);
                }
                match &self.types[t] {
                    TyData::Obj(s) => Some(s.name.clone()),
                    TyData::Struct(s) => Some(s.name.clone()),
                    _ => None,
                }
            },
            None => None,
        };
        proof {
            match obj@.super_type {
                Option::Some(t) => {
                    assert(self@.types[t as int] == self.types@[t as int]@);
                },
                Option::None => {},
            }
        }

        let stub = ClassStub { name: obj.name.clone(), parent, fields, methods };
        proof {
            assert(stub_ok_obj(self@, obj@));
            assert(stub@ =~= class_stub_shape(self@, obj@));
        }
        Ok((stub, idxs))
    }
}

/// The shape of an optional borrowed static view.
pub open spec fn static_obj_shape(s: Option<&ObjData>) -> Option<ObjShape> {
    match s {
        Option::Some(o) => Option::Some(o@),
        Option::None => Option::None,
    }
}

/// If one segment of the flat index list holds an unresolvable index, so
/// does the whole list.
proof fn lemma_part_unresolved(m: ModuleShape, o: ObjShape, sv: Option<ObjShape>, part: int)
    requires
        sv == static_view_of(m, o),
        part == 0 ==> !all_resolve(m, bind_fidxs(o)),
        part == 1 ==> (sv matches Option::Some(s) && !all_resolve(m, bind_fidxs(s))),
        part == 2 ==> !all_resolve(m, o.protos),
        0 <= part <= 2,
    ensures
        !all_resolve(m, stub_fidxs(o, sv)),
{
    let whole = stub_fidxs(o, sv);
    let mid: Seq<usize> = match sv {
        Option::Some(s) => bind_fidxs(s),
        Option::None => Seq::empty(),
    };
    if part == 0 {
        let k = choose|k: int| 0 <= k < bind_fidxs(o).len() && !resolves_fn(m, bind_fidxs(o)[k]);
        assert(whole[k] == bind_fidxs(o)[k]);
    } else if part == 1 {
        let s = sv->Some_0;
        let k = choose|k: int| 0 <= k < bind_fidxs(s).len() && !resolves_fn(m, bind_fidxs(s)[k]);
        assert(whole[bind_fidxs(o).len() + k] == bind_fidxs(s)[k]);
    } else {
        let k = choose|k: int| 0 <= k < o.protos.len() && !resolves_fn(m, o.protos[k]);
        assert(whole[bind_fidxs(o).len() + mid.len() + k] == o.protos[k]);
    }
}

} // verus!
