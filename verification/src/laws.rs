use vstd::prelude::*;

use crate::model::{ModuleShape, ObjShape};
use crate::queries::{class_named, classes_named_upto};
use crate::queries::{debug_file_views, first_proto_file, fn_in_file, fns_in_file_upto};
use crate::queries::{class_list_upto, listed_class, proto_hit, proto_hit_file};
use crate::stub::{class_stub_shape, field_stub_shape, kept_fields, kept_fields_upto};
use crate::stub::{own_slot, slot_bound, static_view_of, stub_fidxs};

verus! {

// ---------------------------------------------------------------------------
// Laws of the stub synthesis.
// ---------------------------------------------------------------------------

/// A class stub carries exactly one method stub per entry of the flat
/// function index list: callers zip the two positionally.
pub proof fn lemma_stub_counts_align(m: ModuleShape, o: ObjShape)
    ensures
        class_stub_shape(m, o).methods.len() == stub_fidxs(o, static_view_of(m, o)).len(),
{
}

proof fn lemma_kept_fields_upto_sound(o: ObjShape, stat: bool, n: int)
    requires
        0 <= n <= o.own_fields.len(),
    ensures
        forall|j: int| 0 <= j < kept_fields_upto(o, stat, n).len() ==> exists|i: int|
            0 <= i < n && !slot_bound(o, #[trigger] own_slot(o, i)) && #[trigger] kept_fields_upto(
                o,
                stat,
                n,
            )[j] == field_stub_shape(o, i, stat),
    decreases n,
{
    if n > 0 {
        lemma_kept_fields_upto_sound(o, stat, n - 1);
        let cur = kept_fields_upto(o, stat, n);
        let prev = kept_fields_upto(o, stat, n - 1);
        assert forall|j: int| 0 <= j < cur.len() implies exists|i: int|
            0 <= i < n && !slot_bound(o, #[trigger] own_slot(o, i)) && #[trigger] cur[j]
                == field_stub_shape(o, i, stat) by {
            if !slot_bound(o, own_slot(o, n - 1)) && j == cur.len() - 1 {
                assert(cur[j] == field_stub_shape(o, n - 1, stat));
            } else {
                assert(cur[j] == prev[j]);
                let i = choose|i: int|
                    0 <= i < n - 1 && !slot_bound(o, own_slot(o, i)) && prev[j]
                        == field_stub_shape(o, i, stat);
                assert(cur[j] == field_stub_shape(o, i, stat));
            }
        }
    }
}

/// Every field stub that the synthesis keeps comes from an own field whose
/// global slot is not accessor-backed: a field whose slot appears among the
/// bindings is absent from the result.
pub proof fn lemma_stub_skips_bound_fields(o: ObjShape, stat: bool)
    ensures
        forall|j: int| 0 <= j < kept_fields(o, stat).len() ==> exists|i: int|
            0 <= i < o.own_fields.len() && !slot_bound(o, #[trigger] own_slot(o, i))
                && #[trigger] kept_fields(o, stat)[j] == field_stub_shape(o, i, stat),
{
    lemma_kept_fields_upto_sound(o, stat, o.own_fields.len() as int);
}

// ---------------------------------------------------------------------------
// Laws of the queries.
// ---------------------------------------------------------------------------

/// A module without a debug table has an empty debug file list; asking for
/// it is never a failure.
pub proof fn lemma_no_debug_table_empty(m: ModuleShape)
    requires
        m.debug_files is None,
    ensures
        debug_file_views(m) == Seq::<Seq<char>>::empty(),
{
}

/// The positions reported for a debug file are exactly the positions of the
/// functions whose last debug entry names it, in table order.
pub proof fn lemma_fns_in_file_exact(m: ModuleShape, fi: int, n: int)
    requires
        0 <= n <= m.functions.len(),
        m.functions.len() <= usize::MAX,
    ensures
        forall|k: int| 0 <= k < fns_in_file_upto(m, fi, n).len() ==> #[trigger] fns_in_file_upto(
            m,
            fi,
            n,
        )[k] < n && fn_in_file(m.functions[fns_in_file_upto(m, fi, n)[k] as int], fi),
        forall|p: int| 0 <= p < n && fn_in_file(m.functions[p], fi) ==> fns_in_file_upto(
            m,
            fi,
            n,
        ).contains(p as usize),
    decreases n,
{
    if n > 0 {
        lemma_fns_in_file_exact(m, fi, n - 1);
        let cur = fns_in_file_upto(m, fi, n);
        let prev = fns_in_file_upto(m, fi, n - 1);
        assert forall|k: int| 0 <= k < cur.len() implies #[trigger] cur[k] < n && fn_in_file(
            m.functions[cur[k] as int],
            fi,
        ) by {
            if fn_in_file(m.functions[n - 1], fi) && k == cur.len() - 1 {
                assert(cur[k] == (n - 1) as usize);
            } else {
                assert(cur[k] == prev[k]);
            }
        }
        assert forall|p: int| 0 <= p < n && fn_in_file(m.functions[p], fi) implies cur.contains(
            p as usize,
        ) by {
            if p == n - 1 {
                assert(cur[cur.len() - 1] == (n - 1) as usize);
            } else {
                let k = choose|k: int| 0 <= k < prev.len() && prev[k] == p as usize;
                assert(cur[k] == p as usize);
            }
        }
    }
}

/// The class listing reports exactly the class-shaped types that the
/// standard-library filter admits, in table order.
pub proof fn lemma_class_list_exact(m: ModuleShape, include_std: bool, n: int)
    requires
        0 <= n <= m.types.len(),
        m.types.len() <= usize::MAX,
    ensures
        forall|k: int| 0 <= k < class_list_upto(m, include_std, n).len() ==> #[trigger] class_list_upto(
            m,
            include_std,
            n,
        )[k] < n && listed_class(m.types[class_list_upto(m, include_std, n)[k] as int], include_std),
        forall|i: int| 0 <= i < n && listed_class(m.types[i], include_std) ==> class_list_upto(
            m,
            include_std,
            n,
        ).contains(i as usize),
    decreases n,
{
    if n > 0 {
        lemma_class_list_exact(m, include_std, n - 1);
        let cur = class_list_upto(m, include_std, n);
        let prev = class_list_upto(m, include_std, n - 1);
        assert forall|k: int| 0 <= k < cur.len() implies #[trigger] cur[k] < n && listed_class(
            m.types[cur[k] as int],
            include_std,
        ) by {
            if listed_class(m.types[n - 1], include_std) && k == cur.len() - 1 {
                assert(cur[k] == (n - 1) as usize);
            } else {
                assert(cur[k] == prev[k]);
            }
        }
        assert forall|i: int| 0 <= i < n && listed_class(m.types[i], include_std) implies
            cur.contains(i as usize) by {
            if i == n - 1 {
                assert(cur[cur.len() - 1] == (n - 1) as usize);
            } else {
                let k = choose|k: int| 0 <= k < prev.len() && prev[k] == i as usize;
                assert(cur[k] == i as usize);
            }
        }
    }
}

/// The name lookup considers exactly the class-shaped types carrying the
/// name: one match yields its position, zero or several yield the two
/// distinct failures.
pub proof fn lemma_classes_named_exact(m: ModuleShape, name: Seq<char>, n: int)
    requires
        0 <= n <= m.types.len(),
        m.types.len() <= usize::MAX,
    ensures
        forall|k: int| 0 <= k < classes_named_upto(m, name, n).len() ==> #[trigger] classes_named_upto(
            m,
            name,
            n,
        )[k] < n && class_named(m.types[classes_named_upto(m, name, n)[k] as int], name),
        forall|i: int| 0 <= i < n && class_named(m.types[i], name) ==> classes_named_upto(
            m,
            name,
            n,
        ).contains(i as usize),
    decreases n,
{
    if n > 0 {
        lemma_classes_named_exact(m, name, n - 1);
        let cur = classes_named_upto(m, name, n);
        let prev = classes_named_upto(m, name, n - 1);
        assert forall|k: int| 0 <= k < cur.len() implies #[trigger] cur[k] < n && class_named(
            m.types[cur[k] as int],
            name,
        ) by {
            if class_named(m.types[n - 1], name) && k == cur.len() - 1 {
                assert(cur[k] == (n - 1) as usize);
            } else {
                assert(cur[k] == prev[k]);
            }
        }
        assert forall|i: int| 0 <= i < n && class_named(m.types[i], name) implies cur.contains(
            i as usize,
        ) by {
            if i == n - 1 {
                assert(cur[cur.len() - 1] == (n - 1) as usize);
            } else {
                let k = choose|k: int| 0 <= k < prev.len() && prev[k] == i as usize;
                assert(cur[k] == i as usize);
            }
        }
    }
}

/// A class with no virtual method slot anchors no file: the query then owes
/// the fixed fallback path, not a failure.
pub proof fn lemma_no_protos_no_anchor(m: ModuleShape, protos: Seq<usize>)
    requires
        protos.len() == 0,
    ensures
        first_proto_file(m, protos, 0) is None,
{
}

/// The anchored file is the one of the first anchoring slot, never a later
/// one: slots before the first anchoring slot contribute nothing.
pub proof fn lemma_first_anchor_wins(m: ModuleShape, protos: Seq<usize>, k0: int)
    requires
        0 <= k0 < protos.len(),
        proto_hit(m, protos[k0]),
        forall|j: int| 0 <= j < k0 ==> !proto_hit(m, protos[j]),
    ensures
        first_proto_file(m, protos, 0) == Option::Some(proto_hit_file(m, protos[k0])),
{
    lemma_first_anchor_from(m, protos, 0, k0);
}

proof fn lemma_first_anchor_from(m: ModuleShape, protos: Seq<usize>, k: int, k0: int)
    requires
        0 <= k <= k0 < protos.len(),
        proto_hit(m, protos[k0]),
        forall|j: int| k <= j < k0 ==> !proto_hit(m, protos[j]),
    ensures
        first_proto_file(m, protos, k) == Option::Some(proto_hit_file(m, protos[k0])),
    decreases k0 - k,
{
    if k < k0 {
        lemma_first_anchor_from(m, protos, k + 1, k0);
    }
}

// ---------------------------------------------------------------------------
// Laws of the transplantation.
// ---------------------------------------------------------------------------

/// After a transplantation the destination slot holds exactly the source
/// module's function record, and every other slot of the destination module
/// is untouched; a module duplicated before the patch keeps the old table
/// throughout, since the copy shares nothing with the original.
pub proof fn lemma_transplant_effect(
    before: ModuleShape,
    after: ModuleShape,
    src: ModuleShape,
    src_pos: int,
    dest: int,
)
    requires
        0 <= src_pos < src.functions.len(),
        0 <= dest < before.functions.len(),
        after.functions == before.functions.update(dest, src.functions[src_pos]),
    ensures
        after.functions[dest] == src.functions[src_pos],
        after.functions.len() == before.functions.len(),
        forall|q: int| 0 <= q < before.functions.len() && q != dest ==> after.functions[q]
            == before.functions[q],
{
}

} // verus!
