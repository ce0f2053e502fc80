use vstd::prelude::*;

verus! {

// ---------------------------------------------------------------------------
// Spec-level shapes: what a module looks like in contracts.
// ---------------------------------------------------------------------------

/// Spec shape of a field declaration.
#[verifier::ext_equal]
pub struct FieldDeclShape {
    pub name: Seq<char>,
    pub type_ref: usize,
}

/// Spec shape of the class data carried by an object or structure type.
#[verifier::ext_equal]
pub struct ObjShape {
    pub name: Seq<char>,
    pub super_type: Option<usize>,
    pub global: usize,
    pub fields_len: usize,
    pub own_fields: Seq<FieldDeclShape>,
    pub protos: Seq<usize>,
    pub bindings: Seq<(usize, usize)>,
    pub from_std: bool,
}

/// Spec shape of one entry of the type table.
#[verifier::ext_equal]
pub enum TyShape {
    Obj(ObjShape),
    Struct(ObjShape),
    Other { from_std: bool, wrapper: bool },
}

/// Spec shape of one entry of the function table.
#[verifier::ext_equal]
pub struct FunShape {
    pub findex: usize,
    pub debug_info: Option<Seq<(usize, usize)>>,
}

/// Spec shape of a whole module.
#[verifier::ext_equal]
pub struct ModuleShape {
    pub types: Seq<TyShape>,
    pub globals: Seq<usize>,
    pub functions: Seq<FunShape>,
    pub debug_files: Option<Seq<Seq<char>>>,
}

// ---------------------------------------------------------------------------
// Executable data model.
// ---------------------------------------------------------------------------

/// A field declared on a class: its name and the index of its type.
pub struct FieldDecl {
    pub name: String,
    pub type_ref: usize,
}

/// The class data carried by an object or structure type.
///
/// `own_fields` are the fields declared locally; the module stores them as
/// the suffix of the full field list, whose length is `fields_len`.
/// `bindings` associates a global field slot with the function index of the
/// accessor bound to it; such a slot is property-backed, not plain data.
/// `protos` lists the function index of each virtual method slot in declared
/// order. `global` is the 1-based global slot whose type, if it is
/// class-shaped, acts as the static view of this class; 0 means none.
pub struct ObjData {
    pub name: String,
    pub super_type: Option<usize>,
    pub global: usize,
    pub fields_len: usize,
    pub own_fields: Vec<FieldDecl>,
    pub protos: Vec<usize>,
    pub bindings: Vec<(usize, usize)>,
    pub from_std: bool,
}

/// One entry of the type table. Only `Obj` is class-shaped; `Struct` carries
/// the same data but participates only in parent and static-view resolution.
pub enum TyData {
    Obj(ObjData),
    Struct(ObjData),
    Other { from_std: bool, wrapper: bool },
}

/// One entry of the function table: the stable function index it answers to,
/// and the optional `(file, line)` debug entry for each of its instructions.
pub struct FunData {
    pub findex: usize,
    pub debug_info: Option<Vec<(usize, usize)>>,
}

/// The in-memory model of a parsed bytecode module: its type table, its
/// global table (each entry a type index), its function table, and the
/// optional debug file table.
pub struct Module {
    pub types: Vec<TyData>,
    pub globals: Vec<usize>,
    pub functions: Vec<FunData>,
    pub debug_files: Option<Vec<String>>,
}

// ---------------------------------------------------------------------------
// Views.
// ---------------------------------------------------------------------------

impl View for FieldDecl {
    type V = FieldDeclShape;

    open spec fn view(&self) -> FieldDeclShape {
        FieldDeclShape { name: self.name@, type_ref: self.type_ref }
    }
}

impl View for ObjData {
    type V = ObjShape;

    open spec fn view(&self) -> ObjShape {
        ObjShape {
            name: self.name@,
            super_type: self.super_type,
            global: self.global,
            fields_len: self.fields_len,
            own_fields: self.own_fields@.map_values(|f: FieldDecl| f@),
            protos: self.protos@,
            bindings: self.bindings@,
            from_std: self.from_std,
        }
    }
}

impl View for TyData {
    type V = TyShape;

    open spec fn view(&self) -> TyShape {
        match self {
            TyData::Obj(o) => TyShape::Obj(o@),
            TyData::Struct(o) => TyShape::Struct(o@),
            TyData::Other { from_std, wrapper } => TyShape::Other {
                from_std: *from_std,
                wrapper: *wrapper,
            },
        }
    }
}

impl View for FunData {
    type V = FunShape;

    open spec fn view(&self) -> FunShape {
        FunShape {
            findex: self.findex,
            debug_info: match self.debug_info {
                Option::Some(v) => Option::Some(v@),
                Option::None => Option::None,
            },
        }
    }
}

impl View for Module {
    type V = ModuleShape;

    open spec fn view(&self) -> ModuleShape {
        ModuleShape {
            types: self.types@.map_values(|t: TyData| t@),
            globals: self.globals@,
            functions: self.functions@.map_values(|f: FunData| f@),
            debug_files: match self.debug_files {
                Option::Some(v) => Option::Some(v@.map_values(|s: String| s@)),
                Option::None => Option::None,
            },
        }
    }
}

// ---------------------------------------------------------------------------
// Resolution of function indices.
// ---------------------------------------------------------------------------

/// Whether some function of the module answers to the function index `fidx`.
pub open spec fn resolves_fn(m: ModuleShape, fidx: usize) -> bool {
    exists|p: int| 0 <= p < m.functions.len() && m.functions[p].findex == fidx
}

/// The position in the function table of the first function answering to the
/// function index `fidx`.
pub open spec fn fn_pos(m: ModuleShape, fidx: usize) -> int {
    first_fn_pos(m.functions, fidx)
}

pub open spec fn first_fn_pos(funs: Seq<FunShape>, fidx: usize) -> int
    decreases funs.len(),
{
    if funs.len() == 0 {
        0
    } else if funs[0].findex == fidx {
        0
    } else {
        1 + first_fn_pos(funs.drop_first(), fidx)
    }
}

pub proof fn lemma_first_fn_pos(funs: Seq<FunShape>, fidx: usize)
    ensures
        (exists|p: int| 0 <= p < funs.len() && funs[p].findex == fidx) ==> {
            let q = first_fn_pos(funs, fidx);
            0 <= q < funs.len() && funs[q].findex == fidx && forall|p: int|
                0 <= p < q ==> funs[p].findex != fidx
        },
    decreases funs.len(),
{
    if funs.len() > 0 && funs[0].findex != fidx {
        let tail = funs.drop_first();
        lemma_first_fn_pos(tail, fidx);
        if exists|p: int| 0 <= p < funs.len() && funs[p].findex == fidx {
            let p0 = choose|p: int| 0 <= p < funs.len() && funs[p].findex == fidx;
            assert(tail[p0 - 1].findex == fidx);
            let qt = first_fn_pos(tail, fidx);
            let q = first_fn_pos(funs, fidx);
            assert(q == 1 + qt);
            assert(funs[q] == tail[qt]);
            assert forall|p: int| 0 <= p < q implies funs[p].findex != fidx by {
                if p >= 1 {
                    assert(funs[p] == tail[p - 1]);
                }
            }
        }
    }
}

impl Module {
    /// The position of the first function answering to `fidx`, if any.
    pub fn find_function(&self, fidx: usize) -> (r: Option<usize>)
        ensures
            match r {
                Some(p) => resolves_fn(self@, fidx) && p == fn_pos(self@, fidx) && p
                    < self@.functions.len() && self@.functions[p as int].findex == fidx,
                None => !resolves_fn(self@, fidx),
            },
    {
        proof {
            lemma_first_fn_pos(self@.functions, fidx);
        }
        let n = self.functions.len();
        let mut i: usize = 0;
        while i < n
            invariant
                n == self.functions.len(),
                0 <= i <= n,
                forall|p: int| 0 <= p < i ==> self@.functions[p].findex != fidx,
            decreases n - i,
        {
            if self.functions[i].findex == fidx {
                proof {
                    lemma_first_fn_pos_found(self@.functions, fidx, i as int);
                }
                return Some(i);
            }
            i = i + 1;
        }
        None
    }
}

pub proof fn lemma_first_fn_pos_found(funs: Seq<FunShape>, fidx: usize, q: int)
    requires
        0 <= q < funs.len(),
        funs[q].findex == fidx,
        forall|p: int| 0 <= p < q ==> funs[p].findex != fidx,
    ensures
        first_fn_pos(funs, fidx) == q,
    decreases funs.len(),
{
    if funs[0].findex != fidx {
        lemma_first_fn_pos_found(funs.drop_first(), fidx, q - 1);
    }
}

} // verus!
