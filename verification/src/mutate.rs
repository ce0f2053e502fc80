use vstd::prelude::*;

use crate::error::Error;
use crate::model::{FieldDecl, FunData, Module, ObjData, TyData};
use crate::model::{fn_pos, resolves_fn};

verus! {

// ---------------------------------------------------------------------------
// Deep duplication, value by value.
// ---------------------------------------------------------------------------

fn dup_usize_vec(v: &Vec<usize>) -> (r: Vec<usize>)
    ensures
        r@ == v@,
{
    let n = v.len();
    let mut r: Vec<usize> = Vec::new();
    let mut i: usize = 0;
    while i < n
        invariant
            n == v.len(),
            0 <= i <= n,
            r@ == v@.subrange(0, i as int),
        decreases n - i,
    {
        r.push(v[i]);
        proof {
            assert(r@ =~= v@.subrange(0, i + 1));
        }
        i = i + 1;
    }
    proof {
        assert(v@.subrange(0, n as int) =~= v@);
    }
    r
}

fn dup_pair_vec(v: &Vec<(usize, usize)>) -> (r: Vec<(usize, usize)>)
    ensures
        r@ == v@,
{
    let n = v.len();
    let mut r: Vec<(usize, usize)> = Vec::new();
    let mut i: usize = 0;
    while i < n
        invariant
            n == v.len(),
            0 <= i <= n,
            r@ == v@.subrange(0, i as int),
        decreases n - i,
    {
        r.push(v[i]);
        proof {
            assert(r@ =~= v@.subrange(0, i + 1));
        }
        i = i + 1;
    }
    proof {
        assert(v@.subrange(0, n as int) =~= v@);
    }
    r
}

fn dup_string_vec(v: &Vec<String>) -> (r: Vec<String>)
    ensures
        r@ == v@,
{
    let n = v.len();
    let mut r: Vec<String> = Vec::new();
    let mut i: usize = 0;
    while i < n
        invariant
            n == v.len(),
            0 <= i <= n,
            r@ == v@.subrange(0, i as int),
        decreases n - i,
    {
        r.push(v[i].clone());
        proof {
            assert(r@ =~= v@.subrange(0, i + 1));
        }
        i = i + 1;
    }
    proof {
        assert(v@.subrange(0, n as int) =~= v@);
    }
    r
}

fn dup_field_vec(v: &Vec<FieldDecl>) -> (r: Vec<FieldDecl>)
    ensures
        r@ == v@,
{
    let n = v.len();
    let mut r: Vec<FieldDecl> = Vec::new();
    let mut i: usize = 0;
    while i < n
        invariant
            n == v.len(),
            0 <= i <= n,
            r@ == v@.subrange(0, i as int),
        decreases n - i,
    {
        let f = &v[i];
        let d = FieldDecl { name: f.name.clone(), type_ref: f.type_ref };
        proof {
            assert(d == v@[i as int]);
        }
        r.push(d);
        proof {
            assert(r@ =~= v@.subrange(0, i + 1));
        }
        i = i + 1;
    }
    proof {
        assert(v@.subrange(0, n as int) =~= v@);
    }
    r
}

fn dup_debug_info(d: &Option<Vec<(usize, usize)>>) -> (r: Option<Vec<(usize, usize)>>)
    ensures
        match d {
            Option::Some(v) => (r matches Option::Some(w) && w@ == v@),
            Option::None => r is None,
        },
{
    match d {
        Some(v) => Some(dup_pair_vec(v)),
        None => None,
    }
}

fn dup_obj(o: &ObjData) -> (r: ObjData)
    ensures
        r@ == o@,
{
    let r = ObjData {
        name: o.name.clone(),
        super_type: o.super_type,
        global: o.global,
        fields_len: o.fields_len,
        own_fields: dup_field_vec(&o.own_fields),
        protos: dup_usize_vec(&o.protos),
        bindings: dup_pair_vec(&o.bindings),
        from_std: o.from_std,
    };
    proof {
        assert(r@ =~= o@);
    }
    r
}

fn dup_ty(t: &TyData) -> (r: TyData)
    ensures
        r@ == t@,
{
    match t {
        TyData::Obj(o) => TyData::Obj(dup_obj(o)),
        TyData::Struct(o) => TyData::Struct(dup_obj(o)),
        TyData::Other { from_std, wrapper } => TyData::Other {
            from_std: *from_std,
            wrapper: *wrapper,
        },
    }
}

fn dup_fun(f: &FunData) -> (r: FunData)
    ensures
        r@ == f@,
{
    FunData { findex: f.findex, debug_info: dup_debug_info(&f.debug_info) }
}

impl Module {
    /// A deep copy of this module. The copy and the original share nothing:
    /// mutating either never affects what the other holds, so a caller that
    /// duplicates a module before patching it keeps an unchanged view of the
    /// state before the patch.
    pub fn duplicate(&self) -> (r: Module)
        ensures
            r@ == self@,
    {
        let n = self.types.len();
        let mut types: Vec<TyData> = Vec::new();
        let mut i: usize = 0;
        while i < n
            invariant
                n == self.types.len(),
                0 <= i <= n,
                types@.map_values(|t: TyData| t@) == self.types@.subrange(0, i as int).map_values(
                    |t: TyData| t@,
                ),
            decreases n - i,
        {
            let ghost pre = types@;
            let d = dup_ty(&self.types[i]);
            types.push(d);
            proof {
                assert(types@.map_values(|t: TyData| t@) =~= pre.map_values(|t: TyData| t@).push(
                    d@,
                ));
                assert(self.types@.subrange(0, i + 1).map_values(|t: TyData| t@)
                    =~= self.types@.subrange(0, i as int).map_values(|t: TyData| t@).push(
                    self.types@[i as int]@,
                ));
            }
            i = i + 1;
        }
        proof {
            assert(self.types@.subrange(0, n as int) =~= self.types@);
        }

        let m = self.functions.len();
        let mut functions: Vec<FunData> = Vec::new();
        let mut p: usize = 0;
        while p < m
            invariant
                m == self.functions.len(),
                0 <= p <= m,
                functions@.map_values(|f: FunData| f@) == self.functions@.subrange(
                    0,
                    p as int,
                ).map_values(|f: FunData| f@),
            decreases m - p,
        {
            let ghost pre = functions@;
            let d = dup_fun(&self.functions[p]);
            functions.push(d);
            proof {
                assert(functions@.map_values(|f: FunData| f@) =~= pre.map_values(
                    |f: FunData| f@,
                ).push(d@));
                assert(self.functions@.subrange(0, p + 1).map_values(|f: FunData| f@)
                    =~= self.functions@.subrange(0, p as int).map_values(|f: FunData| f@).push(
                    self.functions@[p as int]@,
                ));
            }
            p = p + 1;
        }
        proof {
            assert(self.functions@.subrange(0, m as int) =~= self.functions@);
        }

        let debug_files = match &self.debug_files {
            Some(v) => Some(dup_string_vec(v)),
            None => None,
        };

        let r = Module { types, globals: dup_usize_vec(&self.globals), functions, debug_files };
        proof {
            assert(r@ =~= self@);
        }
        r
    }

    /// Transplants into this module, at function table position `dest_pos`,
    /// a copy of the function of `other` that answers to the function index
    /// `src_fidx`. Fails with `FunctionNotFound` when `src_fidx` does not
    /// resolve in the source module, and with an internal fault when
    /// `dest_pos` is outside this module's function table; in both cases
    /// this module is left unchanged. The replacement is structural: no
    /// consistency between the copied body and its new slot is checked, that
    /// is the caller's responsibility. Reports the resolved source position
    /// and the destination position.
    pub fn copy_function_from(&mut self, other: &Module, src_fidx: usize, dest_pos: usize) -> (r:
        Result<(usize, usize), Error>)
        ensures
            !resolves_fn(other@, src_fidx) ==> r == Err::<(usize, usize), Error>(
                Error::FunctionNotFound,
            ) && final(self)@ == old(self)@,
            resolves_fn(other@, src_fidx) && dest_pos >= old(self)@.functions.len() ==> r == Err::<
                (usize, usize),
                Error,
            >(Error::Internal) && final(self)@ == old(self)@,
            resolves_fn(other@, src_fidx) && dest_pos < old(self)@.functions.len() ==> {
                &&& r matches Ok(pr) && pr.0 == fn_pos(other@, src_fidx) && pr.1 == dest_pos
                &&& final(self)@.functions == old(self)@.functions.update(
                    dest_pos as int,
                    other@.functions[fn_pos(other@, src_fidx)],
                )
                &&& final(self)@.types == old(self)@.types
                &&& final(self)@.globals == old(self)@.globals
                &&& final(self)@.debug_files == old(self)@.debug_files
            },
    {
        let p = match other.find_function(src_fidx) {
            Some(p) => p,
            None => {
                return Err(Error::FunctionNotFound);
            },
        };
        if dest_pos >= self.functions.len() {
            return Err(Error::Internal);
        }
        let dup = dup_fun(&other.functions[p]);
        proof {
            assert(dup@ == other@.functions[p as int]);
        }
        self.functions[dest_pos] = dup;
        proof {
            assert(self@.functions =~= old(self)@.functions.update(
                dest_pos as int,
                other@.functions[fn_pos(other@, src_fidx)],
            ));
        }
        Ok((p, dest_pos))
    }
}

} // verus!
