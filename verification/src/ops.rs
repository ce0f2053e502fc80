use vstd::prelude::*;
use vstd::string::StringSliceAdditionalSpecFns;

use crate::error::Error;
use crate::model::{Module, fn_pos, resolves_fn};
use crate::numtext::{dec_val, index_ok, parse_index};
use crate::queries::first_proto_file;
use crate::stub::{ClassStub, MethodStub, make_method_stub, method_shape, obj_at, static_view_of};
use crate::stub::{class_stub_shape, stub_fidxs, stub_ok_obj};

verus! {

/// The index denoted by the decimal text `s`; meaningful when `index_ok`
/// holds of the bytes of `s`.
pub open spec fn idx_of(s: &str) -> usize {
    dec_val(s.spec_bytes()) as usize
}

pub open spec fn idx_ok(s: &str) -> bool {
    index_ok(s.spec_bytes())
}

impl Module {
    /// The function table position of the function answering to the decimal
    /// function index `idx`.
    pub fn function_by_index(&self, idx: &str) -> (r: Result<usize, Error>)
        ensures
            !idx_ok(idx) ==> r == Err::<usize, Error>(Error::InvalidIndex),
            idx_ok(idx) && !resolves_fn(self@, idx_of(idx)) ==> r == Err::<usize, Error>(
                Error::FunctionNotFound,
            ),
            idx_ok(idx) && resolves_fn(self@, idx_of(idx)) ==> (r matches Ok(p) && p == fn_pos(
                self@,
                idx_of(idx),
            )),
    {
        let v = match parse_index(idx) {
            Some(v) => v,
            None => {
                return Err(Error::InvalidIndex);
            },
        };
        match self.find_function(v) {
            Some(p) => Ok(p),
            None => Err(Error::FunctionNotFound),
        }
    }

    /// A body-free method placeholder for the function answering to the
    /// decimal function index `idx`.
    pub fn stub_function(&self, idx: &str) -> (r: Result<MethodStub, Error>)
        ensures
            !idx_ok(idx) ==> r == Err::<MethodStub, Error>(Error::InvalidIndex),
            idx_ok(idx) && !resolves_fn(self@, idx_of(idx)) ==> r == Err::<MethodStub, Error>(
                Error::FunctionNotFound,
            ),
            idx_ok(idx) && resolves_fn(self@, idx_of(idx)) ==> (r matches Ok(s) && s@
                == method_shape(idx_of(idx))),
    {
        let v = match parse_index(idx) {
            Some(v) => v,
            None => {
                return Err(Error::InvalidIndex);
            },
        };
        match self.find_function(v) {
            Some(_) => Ok(make_method_stub(v)),
            None => Err(Error::FunctionNotFound),
        }
    }

    /// The type table position named by the decimal text `idx`, validated to
    /// name a class-shaped type.
    pub fn class_by_index(&self, idx: &str) -> (r: Result<usize, Error>)
        ensures
            !idx_ok(idx) ==> r == Err::<usize, Error>(Error::InvalidIndex),
            idx_ok(idx) && idx_of(idx) >= self@.types.len() ==> r == Err::<usize, Error>(
                Error::Internal,
            ),
            idx_ok(idx) && idx_of(idx) < self@.types.len() && !(self@.types[idx_of(idx) as int]
                is Obj) ==> r == Err::<usize, Error>(Error::NotAnObject),
            idx_ok(idx) && idx_of(idx) < self@.types.len() && self@.types[idx_of(idx) as int]
                is Obj ==> r == Ok::<usize, Error>(idx_of(idx)),
    {
        let v = match parse_index(idx) {
            Some(v) => v,
            None => {
                return Err(Error::InvalidIndex);
            },
        };
        self.class_at(v)
    }

    /// The structural stub of the class named by the decimal type index
    /// `idx`, with the flat list of the function indices behind its method
    /// stubs.
    pub fn stub_class(&self, idx: &str) -> (r: Result<(ClassStub, Vec<usize>), Error>)
        ensures
            !idx_ok(idx) ==> r == Err::<(ClassStub, Vec<usize>), Error>(Error::InvalidIndex),
            idx_ok(idx) && idx_of(idx) >= self@.types.len() ==> r == Err::<
                (ClassStub, Vec<usize>),
                Error,
            >(Error::Internal),
            idx_ok(idx) && idx_of(idx) < self@.types.len() && !(self@.types[idx_of(idx) as int]
                is Obj) ==> r == Err::<(ClassStub, Vec<usize>), Error>(Error::NotAnObject),
            (idx_ok(idx) && idx_of(idx) < self@.types.len() && self@.types[idx_of(idx) as int]
                is Obj && !stub_ok_obj(self@, obj_at(self@, idx_of(idx) as int))) ==> r == Err::<
                (ClassStub, Vec<usize>),
                Error,
            >(Error::Internal),
            (idx_ok(idx) && idx_of(idx) < self@.types.len() && self@.types[idx_of(idx) as int]
                is Obj && stub_ok_obj(self@, obj_at(self@, idx_of(idx) as int))) ==> (
            r matches Ok(pair) && pair.0@ == class_stub_shape(
                self@,
                obj_at(self@, idx_of(idx) as int),
            ) && pair.1@ == stub_fidxs(
                obj_at(self@, idx_of(idx) as int),
                static_view_of(self@, obj_at(self@, idx_of(idx) as int)),
            )),
    {
        let v = match parse_index(idx) {
            Some(v) => v,
            None => {
                return Err(Error::InvalidIndex);
            },
        };
        self.stub_class_at(v)
    }

    /// The source file anchoring the class named by the decimal type index
    /// `idx`, or the fixed fallback path when no method anchors one.
    pub fn source_file_of_class(&self, idx: &str) -> (r: Result<String, Error>)
        ensures
            !idx_ok(idx) ==> r == Err::<String, Error>(Error::InvalidIndex),
            idx_ok(idx) && idx_of(idx) >= self@.types.len() ==> r == Err::<String, Error>(
                Error::Internal,
            ),
            idx_ok(idx) && idx_of(idx) < self@.types.len() && !(self@.types[idx_of(idx) as int]
                is Obj) ==> r == Err::<String, Error>(Error::NotAnObject),
            idx_ok(idx) && idx_of(idx) < self@.types.len() && self@.types[idx_of(idx) as int]
                is Obj ==> (r matches Ok(s) && match first_proto_file(
                self@,
                obj_at(self@, idx_of(idx) as int).protos,
                0,
            ) {
                Option::Some(f) => s@ == f,
                Option::None => s@ == "lost_and_found"@,
            }),
    {
        let v = match parse_index(idx) {
            Some(v) => v,
            None => {
                return Err(Error::InvalidIndex);
            },
        };
        self.source_file_of_class_at(v)
    }

    /// Transplants into this module, at the function table position given by
    /// the decimal text `dest_idx`, a copy of the function of `other`
    /// answering to the decimal function index `src_idx`. Reports the
    /// resolved source position and the destination position; this module is
    /// left unchanged on every failure.
    pub fn copy_function(&mut self, other: &Module, src_idx: &str, dest_idx: &str) -> (r: Result<
        (usize, usize),
        Error,
    >)
        ensures
            !idx_ok(src_idx) || !idx_ok(dest_idx) ==> r == Err::<(usize, usize), Error>(
                Error::InvalidIndex,
            ) && final(self)@ == old(self)@,
            idx_ok(src_idx) && idx_ok(dest_idx) && !resolves_fn(other@, idx_of(src_idx)) ==> r
                == Err::<(usize, usize), Error>(Error::FunctionNotFound) && final(self)@ == old(
                self,
            )@,
            idx_ok(src_idx) && idx_ok(dest_idx) && resolves_fn(other@, idx_of(src_idx)) && idx_of(
                dest_idx,
            ) >= old(self)@.functions.len() ==> r == Err::<(usize, usize), Error>(Error::Internal)
                && final(self)@ == old(self)@,
            idx_ok(src_idx) && idx_ok(dest_idx) && resolves_fn(other@, idx_of(src_idx)) && idx_of(
                dest_idx,
            ) < old(self)@.functions.len() ==> {
                &&& r matches Ok(pr) && pr.0 == fn_pos(other@, idx_of(src_idx)) && pr.1 == idx_of(
                    dest_idx,
                )
                &&& final(self)@.functions == old(self)@.functions.update(
                    idx_of(dest_idx) as int,
                    other@.functions[fn_pos(other@, idx_of(src_idx))],
                )
                &&& final(self)@.types == old(self)@.types
                &&& final(self)@.globals == old(self)@.globals
                &&& final(self)@.debug_files == old(self)@.debug_files
            },
    {
        let src = match parse_index(src_idx) {
            Some(v) => v,
            None => {
                return Err(Error::InvalidIndex);
            },
        };
        let dest = match parse_index(dest_idx) {
            Some(v) => v,
            None => {
                return Err(Error::InvalidIndex);
            },
        };
        self.copy_function_from(other, src, dest)
    }
}

} // verus!
