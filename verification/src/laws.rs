//! What holds of the renumbering and of the search, whatever the module.

use crate::check::{count_imports, group_total, import_item, import_space};
use crate::emit::{
    added_exports, data_plan, emits, export_kind, function_plan, lemma_live_between,
    lemma_rank_splits, live_between, live_from, live_in, type_plan, EmitSection, ExportKind,
};
use crate::module::{Import, Module, Section};
use crate::names::isolated_name;
use crate::reach::{closed, lemma_step_reachable, reachable, Selection};
use crate::relocation::{new_index, reencoded, Relocation};
use crate::sorted::{
    lemma_ascending_lower_bound, lemma_rank_is_split, lemma_rank_of_element, rank,
    strictly_ascending,
};
use crate::types::RecGroup;
use crate::uses::Uses;
use vstd::prelude::*;

verus! {

/// The rank of an index that a strictly ascending list holds is the
/// position of the index, and fits in 32 bits.
pub proof fn lemma_rank_of_live(live: Uses, item: Relocation)
    requires
        live.well_formed(),
        live@.contains(item),
    ensures
        rank(live.space(item), item.spec_index()) < live.space(item).len(),
        rank(live.space(item), item.spec_index()) <= u32::MAX,
        live.space(item)[rank(live.space(item), item.spec_index()) as int] == item.spec_index(),
        new_index(live, item) == Some(rank(live.space(item), item.spec_index()) as u32),
{
    let list = live.space(item);
    let p = choose|p: int| 0 <= p < list.len() && list[p] == item.spec_index();
    lemma_rank_of_element(list, p);
    lemma_ascending_lower_bound(list, p);
}

/// The new indices of the live items of an index space are exactly the
/// numbers below the count of those items. Every live item gets a new
/// index below the count, and every number below the count is the new
/// index of the live item at that position of the ascending list.
pub proof fn lemma_density(live: Uses, space: Relocation)
    requires
        live.well_formed(),
    ensures
        forall|i: u32| #[trigger]
            live@.contains(space.with_index(i)) ==> new_index(live, space.with_index(i)) is Some
                && new_index(live, space.with_index(i)).unwrap() < live.space(space).len(),
        forall|n: int|
            0 <= n < live.space(space).len() ==> live@.contains(
                space.with_index(#[trigger] live.space(space)[n]),
            ) && new_index(live, space.with_index(live.space(space)[n])) == Some(n as u32),
{
    let list = live.space(space);
    assert forall|i: u32| #[trigger] live@.contains(space.with_index(i)) implies new_index(
        live,
        space.with_index(i),
    ) is Some && new_index(live, space.with_index(i)).unwrap() < list.len() by {
        lemma_rank_of_live(live, space.with_index(i));
    }
    assert forall|n: int| 0 <= n < list.len() implies live@.contains(
        space.with_index(#[trigger] list[n]),
    ) && new_index(live, space.with_index(list[n])) == Some(n as u32) by {
        let item = space.with_index(list[n]);
        assert(live.space(item) == list);
        assert(list.contains(list[n]));
        lemma_rank_of_element(list, n);
        lemma_rank_of_live(live, item);
    }
}

/// Of two live items of one index space, the one with the smaller
/// original index gets the smaller new index.
pub proof fn lemma_relative_order(live: Uses, a: Relocation, b: Relocation)
    requires
        live.well_formed(),
        live@.contains(a),
        live@.contains(b),
        a.same_space(b),
        a.spec_index() < b.spec_index(),
    ensures
        new_index(live, a).unwrap() < new_index(live, b).unwrap(),
{
    lemma_rank_of_live(live, a);
    lemma_rank_of_live(live, b);
    let list = live.space(a);
    assert(live.space(b) == list);
    let p = rank(list, a.spec_index()) as int;
    let q = rank(list, b.spec_index()) as int;
    if p >= q {
        if p > q {
            assert(list[q] < list[p]);
        }
    }
}

/// Distinct live items of one index space get distinct new indices.
pub proof fn lemma_new_index_injective(live: Uses, a: Relocation, b: Relocation)
    requires
        live.well_formed(),
        live@.contains(a),
        live@.contains(b),
        a.same_space(b),
        new_index(live, a) == new_index(live, b),
    ensures
        a == b,
{
    if a.spec_index() < b.spec_index() {
        lemma_relative_order(live, a, b);
    } else if b.spec_index() < a.spec_index() {
        lemma_relative_order(live, b, a);
    }
}

/// An index is rewritten to the item's new index if the item is live, and
/// is left as it is otherwise.
pub proof fn lemma_reencoded(live: Uses, item: Relocation)
    ensures
        live@.contains(item) ==> Some(reencoded(live, item)) == new_index(live, item),
        !live@.contains(item) ==> reencoded(live, item) == item.spec_index(),
{
}

/// The items that a selection reaches hold everything that they
/// reference. If `x` is reachable and the use graph says that `x`
/// references `y`, then `y` is reachable.
pub proof fn lemma_closure(module: Module, seeds: Set<Relocation>)
    ensures
        closed(module, Set::new(|r: Relocation| reachable(module, seeds, r))),
{
    let live = Set::new(|r: Relocation| reachable(module, seeds, r));
    assert forall|x: Relocation, y: Relocation|
        live.contains(x) && #[trigger] module.item_uses(x).contains(y) implies live.contains(
        y,
    ) by {
        lemma_step_reachable(module, seeds, x, y);
    }
}

/// In a strictly ascending list, the rank of the next number is one more
/// than the rank of `x` if the list holds `x`, which then stands at its
/// rank, and is the same otherwise.
pub proof fn lemma_rank_next(list: Seq<u32>, x: u32)
    requires
        strictly_ascending(list),
        x < u32::MAX,
    ensures
        list.contains(x) ==> rank(list, x) < list.len() && list[rank(list, x) as int] == x && rank(
            list,
            (x + 1) as u32,
        ) == rank(list, x) + 1,
        !list.contains(x) ==> rank(list, (x + 1) as u32) == rank(list, x),
{
    lemma_rank_splits(list, x);
    let p = rank(list, x) as int;
    if list.contains(x) {
        let k = choose|k: int| 0 <= k < list.len() && list[k] == x;
        assert(k >= p);
        if k > p {
            assert(list[p] < list[k]);
        }
        assert forall|i: int| p + 1 <= i < list.len() implies list[i] >= x + 1 by {
            assert(list[p] < list[i]);
        }
        lemma_rank_is_split(list, (x + 1) as u32, p + 1);
    } else {
        assert forall|i: int| p <= i < list.len() implies list[i] >= x + 1 by {
            assert(list.contains(list[i]));
        }
        lemma_rank_is_split(list, (x + 1) as u32, p);
    }
}

/// The rank of a bound that every index of the list is below is the
/// length of the list.
pub proof fn lemma_rank_of_bound(list: Seq<u32>, bound: u32)
    requires
        strictly_ascending(list),
        forall|i: int| 0 <= i < list.len() ==> list[i] < bound,
    ensures
        rank(list, bound) == list.len(),
{
    lemma_rank_is_split(list, bound, list.len() as int);
}

/// The original indices of the types that a type section writes, in the
/// order in which it writes them.
pub open spec fn written_types(plan: Seq<(bool, Seq<u32>)>) -> Seq<u32>
    decreases plan.len(),
{
    if plan.len() == 0 {
        Seq::empty()
    } else {
        written_types(plan.drop_last()) + plan.last().1
    }
}

/// The types that the first groups write are the live types below the
/// number of types in those groups.
proof fn lemma_types_written_prefix(groups: Seq<RecGroup>, live_types: Seq<u32>)
    requires
        strictly_ascending(live_types),
        group_total(groups) <= u32::MAX,
    ensures
        written_types(type_plan(groups, live_types)) == live_types.subrange(
            0,
            rank(live_types, group_total(groups) as u32) as int,
        ),
    decreases groups.len(),
{
    if groups.len() == 0 {
        lemma_rank_splits(live_types, 0);
        if rank(live_types, 0) > 0 {
            assert(live_types[0] < 0);
        }
        assert(live_types.subrange(0, 0) =~= Seq::<u32>::empty());
    } else {
        let rest = groups.drop_last();
        let start = group_total(rest) as u32;
        let end = group_total(groups) as u32;
        lemma_types_written_prefix(rest, live_types);
        lemma_live_between(live_types, start, end);
        let members = live_between(live_types, start, end);
        let before = type_plan(rest, live_types);
        if members.len() > 0 {
            let plan = type_plan(groups, live_types);
            assert(plan.drop_last() =~= before);
            assert(plan.last().1 == members);
        }
        assert(live_types.subrange(0, rank(live_types, start) as int) + members
            =~= live_types.subrange(0, rank(live_types, end) as int));
    }
}

/// The type section writes every live type once, in ascending order of
/// the original indices, so the type at position `n` of the output is the
/// live type whose new index is `n`.
pub proof fn lemma_types_written(module: Module, live: Uses)
    requires
        module.counts_consistent(),
        module.groups_fit(),
        live.well_formed(),
        live_in(module, live),
    ensures
        written_types(type_plan(module.rec_groups@, live.live_types@)) == live.live_types@,
{
    let list = live.live_types@;
    lemma_types_written_prefix(module.rec_groups@, list);
    assert forall|i: int| 0 <= i < list.len() implies list[i] < module.types@.len() as u32 by {
        assert(live@.contains(Relocation::Type(list[i])));
    }
    lemma_rank_of_bound(list, module.types@.len() as u32);
    assert(list.subrange(0, list.len() as int) =~= list);
}

/// The indices, within the index space of `space`, of the imports of that
/// space that are live, in the order of the import section. These are the
/// imports that the import section writes.
pub open spec fn live_imports(imports: Seq<Import>, live: Uses, space: Relocation) -> Seq<u32>
    decreases imports.len(),
{
    if imports.len() == 0 {
        Seq::empty()
    } else {
        let rest = live_imports(imports.drop_last(), live, space);
        let item = import_item(imports, imports.len() - 1);
        if import_space(imports.last().ty) == space && live@.contains(item) {
            rest.push(item.spec_index())
        } else {
            rest
        }
    }
}

/// The live imports of an index space are the live items of the space
/// that are below the number of its imports.
proof fn lemma_live_imports(imports: Seq<Import>, live: Uses, space: Relocation)
    requires
        live.well_formed(),
        imports.len() <= u32::MAX,
        space.spec_index() == 0,
    ensures
        count_imports(imports, space) <= imports.len(),
        live_imports(imports, live, space) == live.space(space).subrange(
            0,
            rank(live.space(space), count_imports(imports, space) as u32) as int,
        ),
    decreases imports.len(),
{
    let list = live.space(space);
    if imports.len() == 0 {
        lemma_rank_splits(list, 0);
        if rank(list, 0) > 0 {
            assert(list[0] < 0);
        }
        assert(list.subrange(0, 0) =~= Seq::<u32>::empty());
    } else {
        let rest = imports.drop_last();
        lemma_live_imports(rest, live, space);
        let k = imports.len() - 1;
        assert(imports.subrange(0, k) =~= rest);
        let count = count_imports(rest, space) as u32;
        lemma_rank_next(list, count);
        if import_space(imports.last().ty) == space {
            let item = import_item(imports, k);
            assert(item == space.with_index(count));
            assert(live.space(item) == list);
            assert(live@.contains(item) == list.contains(count));
            if list.contains(count) {
                assert(list.subrange(0, rank(list, count) as int).push(count) =~= list.subrange(
                    0,
                    rank(list, count) as int + 1,
                ));
            }
        }
    }
}

/// In an index space with imports, the live imports that the import
/// section writes, followed by the live items that the section of the
/// defined items writes, are the live items of the space, in ascending
/// order. The output therefore has as many items in the space as are
/// live, and the item at position `n` is the live item whose new index is
/// `n`.
pub proof fn lemma_space_written(module: Module, live: Uses, space: Relocation, imported: u32)
    requires
        module.imports@.len() <= u32::MAX,
        live.well_formed(),
        space.spec_index() == 0,
        imported == count_imports(module.imports@, space),
    ensures
        live_imports(module.imports@, live, space) + live_from(live.space(space), imported)
            == live.space(space),
{
    let list = live.space(space);
    lemma_live_imports(module.imports@, live, space);
    lemma_rank_splits(list, imported);
    assert(list.subrange(0, rank(list, imported) as int) + live_from(list, imported) =~= list);
}

/// Where every item of an index space is live, every item of the space
/// keeps its index.
pub proof fn lemma_full_space_keeps_indices(module: Module, live: Uses, space: Relocation)
    requires
        live.well_formed(),
        live_in(module, live),
        module.space_len(space) <= u32::MAX,
        forall|i: u32|
            i < module.space_len(space) ==> live@.contains(#[trigger] space.with_index(i)),
    ensures
        forall|i: u32|
            i < module.space_len(space) ==> new_index(live, #[trigger] space.with_index(i)) == Some(
                i,
            ),
{
    let list = live.space(space);
    let n = module.space_len(space);
    assert forall|i: u32| i < n implies new_index(live, #[trigger] space.with_index(i)) == Some(
        i,
    ) by {
        let item = space.with_index(i);
        assert(live.space(item) == list);
        lemma_full_prefix(module, live, space, i);
    }
}

/// Where every item of an index space is live, the rank of an index of
/// the space is the index.
proof fn lemma_full_prefix(module: Module, live: Uses, space: Relocation, i: u32)
    requires
        live.well_formed(),
        module.space_len(space) <= u32::MAX,
        forall|j: u32|
            j < module.space_len(space) ==> live@.contains(#[trigger] space.with_index(j)),
        i < module.space_len(space),
    ensures
        rank(live.space(space), i) == i,
    decreases i,
{
    let list = live.space(space);
    if i == 0 {
        lemma_rank_splits(list, 0);
        if rank(list, 0) > 0 {
            assert(list[0] < 0);
        }
    } else {
        let before = (i - 1) as u32;
        lemma_full_prefix(module, live, space, before);
        let item = space.with_index(before);
        assert(live@.contains(item));
        assert(live.space(item) == list);
        assert(list.contains(before));
        lemma_rank_next(list, before);
    }
}

/// A section that is copied stays where it stood and holds the same
/// bytes, and no section is copied that was not in the input: the written
/// section at a position is a copy exactly if the section of the input at
/// that position is kept as raw bytes, and then it has the same id and the
/// same bytes.
pub proof fn lemma_passthrough(
    out: EmitSection,
    section: Section,
    module: Module,
    selection: Selection,
    live: Uses,
)
    requires
        emits(out, section, module, selection, live),
    ensures
        out is Passthrough <==> section is Passthrough,
        out matches EmitSection::Passthrough { id: out_id, data: out_data }
            ==> section matches Section::Passthrough { id, data } && out_id == id && out_data@
            == data@,
{
}

/// Every index that is written for a reference of a live item is the new
/// index of a live item, and lies below the number of items that the
/// output has in that index space.
pub proof fn lemma_references_in_range(
    module: Module,
    seeds: Set<Relocation>,
    live: Uses,
    x: Relocation,
    y: Relocation,
)
    requires
        live.well_formed(),
        forall|r: Relocation| live@.contains(r) <==> reachable(module, seeds, r),
        live@.contains(x),
        module.item_uses(x).contains(y),
    ensures
        live@.contains(y),
        Some(reencoded(live, y)) == new_index(live, y),
        reencoded(live, y) < live.space(y).len(),
{
    lemma_step_reachable(module, seeds, x, y);
    lemma_rank_of_live(live, y);
}

/// The export that is added for a selected item that is live.
pub open spec fn added_export(space: Relocation, live: Uses, idx: u32) -> (
    Seq<char>,
    ExportKind,
    u32,
) {
    let item = space.with_index(idx);
    (isolated_name(item), export_kind(space), new_index(live, item).unwrap())
}

/// An export is added for a selected item exactly if the item is live:
/// the added exports of an index space are those of the selected indices
/// whose item is live, and no others.
pub proof fn lemma_added_exports(list: Seq<u32>, space: Relocation, live: Uses)
    ensures
        forall|k: int|
            0 <= k < list.len() && live@.contains(space.with_index(#[trigger] list[k]))
                ==> added_exports(list, space, live).contains(added_export(space, live, list[k])),
        forall|e: (Seq<char>, ExportKind, u32)|
            added_exports(list, space, live).contains(e) ==> exists|k: int|
                0 <= k < list.len() && live@.contains(space.with_index(#[trigger] list[k])) && e
                    == added_export(space, live, list[k]),
    decreases list.len(),
{
    let all = added_exports(list, space, live);
    if list.len() > 0 {
        let rest = list.drop_last();
        let before = added_exports(rest, space, live);
        let last = list.last();
        let item = space.with_index(last);
        lemma_added_exports(rest, space, live);
        let added = live@.contains(item) && !rest.contains(last);
        if added {
            assert(all == before.push(added_export(space, live, last)));
        } else {
            assert(all == before);
        }
        assert forall|k: int|
            0 <= k < list.len() && live@.contains(
                space.with_index(#[trigger] list[k]),
            ) implies all.contains(added_export(space, live, list[k])) by {
            let e = added_export(space, live, list[k]);
            let j = if k < rest.len() {
                k
            } else if added {
                k
            } else {
                choose|j: int| 0 <= j < rest.len() && rest[j] == last
            };
            if j < rest.len() {
                assert(rest[j] == list[k]);
                assert(before.contains(e));
                let at = choose|at: int| 0 <= at < before.len() && before[at] == e;
                assert(all[at] == e);
            } else {
                assert(all[before.len() as int] == e);
            }
        }
        assert forall|e: (Seq<char>, ExportKind, u32)| all.contains(e) implies exists|k: int|
            0 <= k < list.len() && live@.contains(space.with_index(#[trigger] list[k])) && e
                == added_export(space, live, list[k]) by {
            let at = choose|at: int| 0 <= at < all.len() && all[at] == e;
            if at < before.len() {
                assert(before[at] == e);
                assert(before.contains(e));
                let k = choose|k: int|
                    0 <= k < rest.len() && live@.contains(space.with_index(#[trigger] rest[k]))
                        && e == added_export(space, live, rest[k]);
                assert(list[k] == rest[k]);
            } else {
                assert(list[list.len() - 1] == last);
            }
        }
    }
}

/// A live function keeps its signature: the type of the function is live,
/// and so is every type that the parameters and results of that type
/// name.
pub proof fn lemma_signature_live(
    module: Module,
    seeds: Set<Relocation>,
    live: Uses,
    func: u32,
    used: Relocation,
)
    requires
        forall|r: Relocation| live@.contains(r) <==> reachable(module, seeds, r),
        live@.contains(Relocation::Func(func)),
        module.signature_uses(module.func_types@[func as int]).contains(used),
    ensures
        live@.contains(Relocation::Type(module.func_types@[func as int])),
        live@.contains(used),
{
    reveal(Module::item_uses);
    let ty = Relocation::Type(module.func_types@[func as int]);
    lemma_step_reachable(module, seeds, Relocation::Func(func), ty);
    lemma_step_reachable(module, seeds, Relocation::Func(func), used);
}

/// The sections of the functions agree: the function section declares as
/// many functions as the code section has bodies, one for each live
/// function that the module defines. Likewise the data section has as
/// many segments as the data count section says.
pub proof fn lemma_counts_agree(module: Module, live: Uses)
    ensures
        function_plan(module, live).len() == live_from(
            live.live_funcs@,
            module.num_imported_functions,
        ).len(),
        data_plan(module, live).len() == live.live_datas@.len(),
{
}

/// The first item of an index space keeps its index if it is live. So an
/// active element segment that names no table, and therefore initialises
/// table 0, need not name one afterwards.
pub proof fn lemma_first_item_keeps_index(live: Uses, space: Relocation)
    requires
        live.well_formed(),
        live@.contains(space.with_index(0)),
    ensures
        new_index(live, space.with_index(0)) == Some(0u32),
{
    let list = live.space(space);
    assert(live.space(space.with_index(0)) == list);
    lemma_rank_splits(list, 0);
    if rank(list, 0) > 0 {
        assert(list[0] < 0);
    }
}

} // verus!
