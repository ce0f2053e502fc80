use vstd::prelude::*;

use crate::error::Error;
use crate::model::{FunShape, Module, ModuleShape, TyData, TyShape};
use crate::model::{fn_pos, resolves_fn};

verus! {

// ---------------------------------------------------------------------------
// Debug file queries.
// ---------------------------------------------------------------------------

/// The debug file table of `m`, or the empty sequence if the module carries
/// none.
pub open spec fn debug_file_views(m: ModuleShape) -> Seq<Seq<char>> {
    match m.debug_files {
        Option::Some(v) => v,
        Option::None => Seq::empty(),
    }
}

/// Whether `f` occurs in the file table `files`.
pub open spec fn file_found(files: Seq<Seq<char>>, f: Seq<char>) -> bool {
    exists|i: int| 0 <= i < files.len() && files[i] == f
}

/// The position of the first occurrence of `f` in `files`.
pub open spec fn first_file_pos(files: Seq<Seq<char>>, f: Seq<char>) -> int
    decreases files.len(),
{
    if files.len() == 0 {
        0
    } else if files[0] == f {
        0
    } else {
        1 + first_file_pos(files.drop_first(), f)
    }
}

/// Whether a function belongs to the debug file at table position `fi`: its
/// last debug entry, the one of its final instruction, names that file.
pub open spec fn fn_in_file(fd: FunShape, fi: int) -> bool {
    match fd.debug_info {
        Option::Some(di) => di.len() > 0 && di[di.len() - 1].0 == fi,
        Option::None => false,
    }
}

/// The positions, in table order, of the first `n` functions of `m` that
/// belong to the debug file at table position `fi`.
pub open spec fn fns_in_file_upto(m: ModuleShape, fi: int, n: int) -> Seq<usize>
    decreases n,
{
    if n <= 0 {
        Seq::empty()
    } else if fn_in_file(m.functions[n - 1], fi) {
        fns_in_file_upto(m, fi, n - 1).push((n - 1) as usize)
    } else {
        fns_in_file_upto(m, fi, n - 1)
    }
}

pub open spec fn fns_in_file(m: ModuleShape, fi: int) -> Seq<usize> {
    fns_in_file_upto(m, fi, m.functions.len() as int)
}

// ---------------------------------------------------------------------------
// Class listing and name lookup.
// ---------------------------------------------------------------------------

/// Whether the type table entry `t` is listed by the class enumeration:
/// class-shaped, and from the standard library only when asked for.
pub open spec fn listed_class(t: TyShape, include_std: bool) -> bool {
    t is Obj && (include_std || !t->Obj_0.from_std)
}

pub open spec fn class_list_upto(m: ModuleShape, include_std: bool, n: int) -> Seq<usize>
    decreases n,
{
    if n <= 0 {
        Seq::empty()
    } else if listed_class(m.types[n - 1], include_std) {
        class_list_upto(m, include_std, n - 1).push((n - 1) as usize)
    } else {
        class_list_upto(m, include_std, n - 1)
    }
}

pub open spec fn class_list(m: ModuleShape, include_std: bool) -> Seq<usize> {
    class_list_upto(m, include_std, m.types.len() as int)
}

/// Whether the type table entry `t` is a class named `n`.
pub open spec fn class_named(t: TyShape, n: Seq<char>) -> bool {
    t is Obj && t->Obj_0.name == n
}

pub open spec fn classes_named_upto(m: ModuleShape, name: Seq<char>, n: int) -> Seq<usize>
    decreases n,
{
    if n <= 0 {
        Seq::empty()
    } else if class_named(m.types[n - 1], name) {
        classes_named_upto(m, name, n - 1).push((n - 1) as usize)
    } else {
        classes_named_upto(m, name, n - 1)
    }
}

pub open spec fn classes_named(m: ModuleShape, name: Seq<char>) -> Seq<usize> {
    classes_named_upto(m, name, m.types.len() as int)
}

// ---------------------------------------------------------------------------
// Source file of a class.
// ---------------------------------------------------------------------------

/// Whether the virtual method slot holding function index `fx` anchors a
/// source file: the index resolves, the function carries a nonempty debug
/// info sequence, and the file of the first entry is in the file table.
pub open spec fn proto_hit(m: ModuleShape, fx: usize) -> bool {
    &&& resolves_fn(m, fx)
    &&& m.functions[fn_pos(m, fx)].debug_info matches Option::Some(di) && di.len() > 0
    &&& m.debug_files is Some
    &&& m.functions[fn_pos(m, fx)].debug_info->Some_0[0].0 < debug_file_views(m).len()
}

/// The file anchored by the slot holding `fx`, when `proto_hit` holds.
pub open spec fn proto_hit_file(m: ModuleShape, fx: usize) -> Seq<char> {
    debug_file_views(m)[m.functions[fn_pos(m, fx)].debug_info->Some_0[0].0 as int]
}

/// The file anchored by the first anchoring slot among `protos[k..]`, if
/// any.
pub open spec fn first_proto_file(m: ModuleShape, protos: Seq<usize>, k: int) -> Option<Seq<char>>
    decreases protos.len() - k,
{
    if k < 0 || k >= protos.len() {
        Option::None
    } else if proto_hit(m, protos[k]) {
        Option::Some(proto_hit_file(m, protos[k]))
    } else {
        first_proto_file(m, protos, k + 1)
    }
}

// ---------------------------------------------------------------------------
// Executable queries.
// ---------------------------------------------------------------------------

impl Module {
    /// The module's debug file paths in stored order, or the empty list if
    /// the module carries no debug info; never a failure.
    pub fn list_debug_files(&self) -> (r: Vec<String>)
        ensures
            r@.map_values(|s: String| s@) == debug_file_views(self@),
    {
        let mut r: Vec<String> = Vec::new();
        match &self.debug_files {
            None => {
                proof {
                    assert(r@.map_values(|s: String| s@) =~= debug_file_views(self@));
                }
            },
            Some(files) => {
                let n = files.len();
                let mut i: usize = 0;
                while i < n
                    invariant
                        n == files.len(),
                        0 <= i <= n,
                        self.debug_files matches Some(fs) && fs == *files,
                        r@ == files@.subrange(0, i as int),
                    decreases n - i,
                {
                    let ghost pre = r@;
                    r.push(files[i].clone());
                    proof {
                        assert(r@ =~= files@.subrange(0, i + 1));
                    }
                    i = i + 1;
                }
                proof {
                    assert(r@ =~= files@);
                    assert(r@.map_values(|s: String| s@) =~= debug_file_views(self@));
                }
            },
        }
        r
    }

    /// The positions, in table order, of every function whose last debug
    /// entry names `file`. Fails with `NoDebugInfo` when the module carries
    /// no debug file table at all, and with `FileNotFound` when it does but
    /// `file` is not in it.
    pub fn functions_in_file(&self, file: &String) -> (r: Result<Vec<usize>, Error>)
        ensures
            self@.debug_files is None ==> r == Err::<Vec<usize>, Error>(Error::NoDebugInfo),
            self@.debug_files is Some && !file_found(debug_file_views(self@), file@) ==> r
                == Err::<Vec<usize>, Error>(Error::FileNotFound),
            self@.debug_files is Some && file_found(debug_file_views(self@), file@) ==> (
            r matches Ok(v) && v@ == fns_in_file(
                self@,
                first_file_pos(debug_file_views(self@), file@),
            )),
    {
        let files = match &self.debug_files {
            None => {
                return Err(Error::NoDebugInfo);
            },
            Some(files) => files,
        };
        let fi = match find_file(files, file) {
            None => {
                proof {
                    assert forall|j: int| 0 <= j < debug_file_views(self@).len() implies
                        debug_file_views(self@)[j] != file@ by {
                        assert(debug_file_views(self@)[j] == files@[j]@);
                    }
                    assert(!file_found(debug_file_views(self@), file@));
                }
                return Err(Error::FileNotFound);
            },
            Some(i) => i,
        };
        proof {
            assert(debug_file_views(self@)[fi as int] == files@[fi as int]@);
            assert(file_found(debug_file_views(self@), file@));
            assert forall|j: int| 0 <= j < fi implies debug_file_views(self@)[j] != file@ by {
                assert(debug_file_views(self@)[j] == files@[j]@);
            }
            lemma_first_pos_found(debug_file_views(self@), file@, fi as int);
        }

        let m = self.functions.len();
        let mut r: Vec<usize> = Vec::new();
        let mut p: usize = 0;
        while p < m
            invariant
                m == self.functions.len(),
                0 <= p <= m,
                fi < debug_file_views(self@).len(),
                r@ == fns_in_file_upto(self@, fi as int, p as int),
            decreases m - p,
        {
            let hit = match &self.functions[p].debug_info {
                Some(di) => di.len() > 0 && di[di.len() - 1].0 == fi,
                None => false,
            };
            proof {
                assert(self@.functions[p as int] == self.functions@[p as int]@);
                assert(hit == fn_in_file(self@.functions[p as int], fi as int));
            }
            if hit {
                r.push(p);
                proof {
                    assert(r@ =~= fns_in_file_upto(self@, fi as int, p + 1));
                }
            }
            p = p + 1;
        }
        Ok(r)
    }

    /// The type table position `ti`, validated to name a class-shaped type.
    /// An out-of-range position is an internal fault; an in-range position
    /// naming any other type kind is `NotAnObject`.
    pub fn class_at(&self, ti: usize) -> (r: Result<usize, Error>)
        ensures
            ti >= self@.types.len() ==> r == Err::<usize, Error>(Error::Internal),
            ti < self@.types.len() && !(self@.types[ti as int] is Obj) ==> r == Err::<usize, Error>(
                Error::NotAnObject,
            ),
            ti < self@.types.len() && self@.types[ti as int] is Obj ==> r == Ok::<usize, Error>(ti),
    {
        if ti >= self.types.len() {
            return Err(Error::Internal);
        }
        proof {
            assert(self@.types[ti as int] == self.types@[ti as int]@);
        }
        match &self.types[ti] {
            TyData::Obj(_) => Ok(ti),
            _ => Err(Error::NotAnObject),
        }
    }

    /// The positions of the class-shaped types, in table order, skipping
    /// standard-library classes unless `include_std` is set.
    pub fn list_classes(&self, include_std: bool) -> (r: Vec<usize>)
        ensures
            r@ == class_list(self@, include_std),
    {
        let n = self.types.len();
        let mut r: Vec<usize> = Vec::new();
        let mut i: usize = 0;
        while i < n
            invariant
                n == self.types.len(),
                0 <= i <= n,
                r@ == class_list_upto(self@, include_std, i as int),
            decreases n - i,
        {
            let keep = match &self.types[i] {
                TyData::Obj(o) => include_std || !o.from_std,
                _ => false,
            };
            proof {
                assert(self@.types[i as int] == self.types@[i as int]@);
                assert(keep == listed_class(self@.types[i as int], include_std));
            }
            if keep {
                r.push(i);
            }
            proof {
                assert(r@ =~= class_list_upto(self@, include_std, i + 1));
            }
            i = i + 1;
        }
        r
    }

    /// The position of the single class named `name`. Fails with
    /// `NameNotFound` when no class carries the name and with
    /// `AmbiguousName` when several do; class names are not guaranteed
    /// unique, and ambiguity is reported rather than resolved arbitrarily.
    pub fn class_index_by_name(&self, name: &String) -> (r: Result<usize, Error>)
        ensures
            classes_named(self@, name@).len() == 0 ==> r == Err::<usize, Error>(
                Error::NameNotFound,
            ),
            classes_named(self@, name@).len() == 1 ==> r == Ok::<usize, Error>(
                classes_named(self@, name@)[0] as usize,
            ),
            classes_named(self@, name@).len() >= 2 ==> r == Err::<usize, Error>(
                Error::AmbiguousName,
            ),
    {
        let n = self.types.len();
        let mut matches: Vec<usize> = Vec::new();
        let mut i: usize = 0;
        while i < n
            invariant
                n == self.types.len(),
                0 <= i <= n,
                matches@ == classes_named_upto(self@, name@, i as int),
            decreases n - i,
        {
            let hit = match &self.types[i] {
                TyData::Obj(o) => o.name == *name,
                _ => false,
            };
            proof {
                assert(self@.types[i as int] == self.types@[i as int]@);
                assert(hit == class_named(self@.types[i as int], name@));
            }
            if hit {
                matches.push(i);
            }
            proof {
                assert(matches@ =~= classes_named_upto(self@, name@, i + 1));
            }
            i = i + 1;
        }
        if matches.len() == 1 {
            Ok(matches[0])
        } else if matches.len() == 0 {
            Err(Error::NameNotFound)
        } else {
            Err(Error::AmbiguousName)
        }
    }

    /// The source file anchoring the class at type table position `ti`: the
    /// file of the first debug entry of the first virtual method slot that
    /// carries debug info. A class with no such method reports the fixed
    /// fallback path "lost_and_found"; data-only classes legitimately lack
    /// an anchor, so this is not a failure.
    pub fn source_file_of_class_at(&self, ti: usize) -> (r: Result<String, Error>)
        ensures
            ti >= self@.types.len() ==> r == Err::<String, Error>(Error::Internal),
            ti < self@.types.len() && !(self@.types[ti as int] is Obj) ==> r == Err::<String, Error>(
                Error::NotAnObject,
            ),
            ti < self@.types.len() && self@.types[ti as int] is Obj ==> (r matches Ok(s)
                && match first_proto_file(self@, self@.types[ti as int]->Obj_0.protos, 0) {
                Option::Some(f) => s@ == f,
                Option::None => s@ == "lost_and_found"@,
            }),
    {
        if ti >= self.types.len() {
            return Err(Error::Internal);
        }
        let obj = match &self.types[ti] {
            TyData::Obj(o) => o,
            _ => {
                proof {
                    assert(self@.types[ti as int] == self.types@[ti as int]@);
                }
                return Err(Error::NotAnObject);
            },
        };
        proof {
            assert(self@.types[ti as int] == self.types@[ti as int]@);
            assert(self@.types[ti as int] is Obj);
            assert(self@.types[ti as int]->Obj_0 == obj@);
        }
        let n = obj.protos.len();
        let mut k: usize = 0;
        while k < n
            invariant
                n == obj.protos.len(),
                0 <= k <= n,
                ti < self@.types.len(),
                self@.types[ti as int] is Obj,
                self@.types[ti as int]->Obj_0 == obj@,
                first_proto_file(self@, obj@.protos, 0) == first_proto_file(
                    self@,
                    obj@.protos,
                    k as int,
                ),
            decreases n - k,
        {
            let fx = obj.protos[k];
            match self.proto_anchor(fx) {
                Some(s) => {
                    proof {
                        assert(obj@.protos[k as int] == fx);
                        assert(first_proto_file(self@, obj@.protos, k as int)
                            == Option::Some(proto_hit_file(self@, fx)));
                    }
                    return Ok(s);
                },
                None => {
                    proof {
                        assert(obj@.protos[k as int] == fx);
                        assert(first_proto_file(self@, obj@.protos, k as int) == first_proto_file(
                            self@,
                            obj@.protos,
                            k + 1,
                        ));
                    }
                },
            }
            k = k + 1;
        }
        Ok(sentinel_file())
    }

    /// The source file anchored by the virtual slot holding function index
    /// `fx`, if the slot resolves to a function whose debug info names a
    /// file of the table.
    fn proto_anchor(&self, fx: usize) -> (r: Option<String>)
        ensures
            match r {
                Some(s) => proto_hit(self@, fx) && s@ == proto_hit_file(self@, fx),
                None => !proto_hit(self@, fx),
            },
    {
        let p = match self.find_function(fx) {
            Some(p) => p,
            None => {
                return None;
            },
        };
        proof {
            assert(self@.functions[p as int] == self.functions@[p as int]@);
        }
        let di = match &self.functions[p].debug_info {
            Some(di) => di,
            None => {
                return None;
            },
        };
        if di.len() == 0 {
            return None;
        }
        let file_idx = di[0].0;
        let files = match &self.debug_files {
            Some(files) => files,
            None => {
                return None;
            },
        };
        if file_idx >= files.len() {
            return None;
        }
        proof {
            assert(proto_hit(self@, fx));
            assert(debug_file_views(self@)[file_idx as int] == files@[file_idx as int]@);
        }
        Some(files[file_idx].clone())
    }
}

/// The position of the first entry of `files` that reads `file`, if any.
fn find_file(files: &Vec<String>, file: &String) -> (r: Option<usize>)
    ensures
        match r {
            Some(i) => i < files@.len() && files@[i as int]@ == file@ && forall|j: int|
                0 <= j < i ==> files@[j]@ != file@,
            None => forall|j: int| 0 <= j < files@.len() ==> files@[j]@ != file@,
        },
{
    let n = files.len();
    let mut i: usize = 0;
    while i < n
        invariant
            n == files.len(),
            0 <= i <= n,
            forall|j: int| 0 <= j < i ==> files@[j]@ != file@,
        decreases n - i,
    {
        if files[i] == *file {
            return Some(i);
        }
        i = i + 1;
    }
    None
}

/// The fallback path reported for a class that no method anchors to a file.
fn sentinel_file() -> (r: String)
    ensures
        r@ == "lost_and_found"@,
{
    let s: &str = "lost_and_found";
    s.to_owned()
}

pub proof fn lemma_first_pos_found(files: Seq<Seq<char>>, f: Seq<char>, q: int)
    requires
        0 <= q < files.len(),
        files[q] == f,
        forall|i: int| 0 <= i < q ==> files[i] != f,
    ensures
        first_file_pos(files, f) == q,
    decreases files.len(),
{
    if files[0] != f {
        lemma_first_pos_found(files.drop_first(), f, q - 1);
    }
}

} // verus!
