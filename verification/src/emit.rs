//! What each section of the smaller module holds.

use crate::check::{
    count_imports, export_item, exported_item, group_total, import_item, lemma_group_total_prefix,
};
use crate::module::{DataKind, ElementKind, Export, ExternalKind, Import, Module, Section, TypeRef};
use crate::names::{get_isolated_name, isolated_name};
use crate::reach::{lemma_space_bound, Selection};
use crate::relocation::{new_index, reencoded, RelocatingReencoder, Relocation};
use crate::sorted::{lemma_rank_is_split, lower_bound, rank, strictly_ascending};
use crate::types::{MemoryType, RecGroup, TagType};
use crate::uses::Uses;
use vstd::prelude::*;

verus! {

/// The indices of a strictly ascending list that are at least `first`, in
/// their order: the part of the list from the rank of `first` on.
pub open spec fn live_from(list: Seq<u32>, first: u32) -> Seq<u32> {
    list.subrange(rank(list, first) as int, list.len() as int)
}

/// The indices of a strictly ascending list that are at least `lo` and
/// below `hi`, in their order.
pub open spec fn live_between(list: Seq<u32>, lo: u32, hi: u32) -> Seq<u32> {
    list.subrange(rank(list, lo) as int, rank(list, hi) as int)
}

/// `live_from` keeps exactly the indices that are at least `first`, and
/// keeps them ascending.
pub proof fn lemma_live_from(list: Seq<u32>, first: u32)
    requires
        strictly_ascending(list),
    ensures
        strictly_ascending(live_from(list, first)),
        forall|i: u32| live_from(list, first).contains(i) <==> (list.contains(i) && i >= first),
{
    crate::sorted::lemma_rank_bound(list, first);
    let p = rank(list, first) as int;
    let part = live_from(list, first);
    lemma_rank_splits(list, first);
    assert forall|i: u32| part.contains(i) <==> (list.contains(i) && i >= first) by {
        if part.contains(i) {
            let k = choose|k: int| 0 <= k < part.len() && part[k] == i;
            assert(list[p + k] == i);
        }
        if list.contains(i) && i >= first {
            let k = choose|k: int| 0 <= k < list.len() && list[k] == i;
            assert(k >= p);
            assert(part[k - p] == i);
        }
    }
}

/// `live_between` keeps exactly the indices from `lo` up to `hi`, and
/// keeps them ascending.
pub proof fn lemma_live_between(list: Seq<u32>, lo: u32, hi: u32)
    requires
        strictly_ascending(list),
        lo <= hi,
    ensures
        rank(list, lo) <= rank(list, hi) <= list.len(),
        strictly_ascending(live_between(list, lo, hi)),
        forall|i: u32|
            live_between(list, lo, hi).contains(i) <==> (list.contains(i) && lo <= i < hi),
{
    lemma_rank_splits(list, lo);
    lemma_rank_splits(list, hi);
    let p = rank(list, lo) as int;
    let q = rank(list, hi) as int;
    if p > q {
        assert(list[q] >= hi);
        assert(list[q] < lo);
    }
    let part = live_between(list, lo, hi);
    assert forall|i: u32| part.contains(i) <==> (list.contains(i) && lo <= i < hi) by {
        if part.contains(i) {
            let k = choose|k: int| 0 <= k < part.len() && part[k] == i;
            assert(list[p + k] == i);
        }
        if list.contains(i) && lo <= i < hi {
            let k = choose|k: int| 0 <= k < list.len() && list[k] == i;
            assert(p <= k < q);
            assert(part[k - p] == i);
        }
    }
}

/// The rank of `x` splits a strictly ascending list: before it stand the
/// indices below `x`, from it on the others.
pub proof fn lemma_rank_splits(list: Seq<u32>, x: u32)
    requires
        strictly_ascending(list),
    ensures
        rank(list, x) <= list.len(),
        forall|i: int| 0 <= i < rank(list, x) ==> list[i] < x,
        forall|i: int| rank(list, x) <= i < list.len() ==> list[i] >= x,
    decreases list.len(),
{
    if list.len() > 0 {
        let t = list.drop_last();
        lemma_rank_splits(t, x);
        if list.last() < x {
            assert forall|i: int| 0 <= i < list.len() implies list[i] < x by {
                if i < list.len() - 1 {
                    assert(list[i] < list[list.len() - 1]);
                }
            }
            lemma_rank_is_split(t, x, t.len() as int);
        } else {
            assert forall|i: int| 0 <= i < rank(list, x) implies list[i] < x by {
                assert(t[i] == list[i]);
            }
            assert forall|i: int| rank(list, x) <= i < list.len() implies list[i] >= x by {
                if i < t.len() {
                    assert(t[i] == list[i]);
                }
            }
        }
    }
}

/// The part of a strictly ascending list that lies between two positions.
fn copy_range(list: &Vec<u32>, from: usize, to: usize) -> (res: Vec<u32>)
    requires
        from <= to <= list@.len(),
    ensures
        res@ == list@.subrange(from as int, to as int),
{
    let mut res: Vec<u32> = Vec::new();
    let mut k: usize = from;
    while k < to
        invariant
            from <= k <= to <= list@.len(),
            res@ == list@.subrange(from as int, k as int),
        decreases to - k,
    {
        res.push(list[k]);
        proof {
            assert(res@ =~= list@.subrange(from as int, k + 1));
        }
        k += 1;
    }
    res
}

/// The indices of a strictly ascending list that are at least `first`.
pub fn defined_live(list: &Vec<u32>, first: u32) -> (res: Vec<u32>)
    requires
        strictly_ascending(list@),
    ensures
        res@ == live_from(list@, first),
        strictly_ascending(res@),
        forall|i: u32| res@.contains(i) <==> (list@.contains(i) && i >= first),
{
    let p = lower_bound(list, first);
    proof {
        lemma_live_from(list@, first);
    }
    copy_range(list, p, list.len())
}

/// The indices of a strictly ascending list from `lo` up to `hi`.
pub fn live_range(list: &Vec<u32>, lo: u32, hi: u32) -> (res: Vec<u32>)
    requires
        strictly_ascending(list@),
        lo <= hi,
    ensures
        res@ == live_between(list@, lo, hi),
        strictly_ascending(res@),
        forall|i: u32| res@.contains(i) <==> (list@.contains(i) && lo <= i < hi),
{
    let p = lower_bound(list, lo);
    let q = lower_bound(list, hi);
    proof {
        lemma_live_between(list@, lo, hi);
    }
    copy_range(list, p, q)
}

/// The function section: for each live function that the module defines,
/// in ascending order, the rewritten index of its type.
pub open spec fn function_plan(module: Module, live: Uses) -> Seq<u32> {
    let defined = live_from(live.live_funcs@, module.num_imported_functions);
    Seq::new(
        defined.len(),
        |k: int| reencoded(live, Relocation::Type(module.func_types@[defined[k] as int])),
    )
}

/// The memory section: the type of each live memory that the module
/// defines, in ascending order.
pub open spec fn memory_plan(module: Module, live: Uses) -> Seq<MemoryType> {
    let defined = live_from(live.live_memories@, module.num_imported_memories);
    Seq::new(defined.len(), |k: int| module.memory_types@[defined[k] as int])
}

/// How the type of a tag is written: with the index of its function type
/// rewritten.
pub open spec fn tag_emit(live: Uses, ty: TagType) -> TagType {
    TagType { kind: ty.kind, func_type_idx: reencoded(live, Relocation::Type(ty.func_type_idx)) }
}

/// The tag section: the type of each live tag that the module defines, in
/// ascending order, as it is written.
pub open spec fn tag_plan(module: Module, live: Uses) -> Seq<TagType> {
    let defined = live_from(live.live_tags@, module.num_imported_tags);
    Seq::new(defined.len(), |k: int| tag_emit(live, module.tag_types@[defined[k] as int]))
}

/// The start section: the new index of the start function, if there is
/// one and it is live.
pub open spec fn start_plan(module: Module, live: Uses) -> Option<u32> {
    match module.start_idx {
        Some(func) => new_index(live, Relocation::Func(func)),
        None => None,
    }
}

/// A live data segment, by its original index, and the rewritten index of
/// the memory that it initialises, if it is active.
#[derive(Clone, Copy, Debug, PartialEq, Eq, Structural)]
pub struct DataEmit {
    pub index: u32,
    pub memory: Option<u32>,
}

/// A live element segment, by its original index, and the rewritten index
/// of the table that it initialises, if it is active and names one. An
/// active segment that names no table initialises table 0, before and
/// after.
#[derive(Clone, Copy, Debug, PartialEq, Eq, Structural)]
pub struct ElemEmit {
    pub index: u32,
    pub table: Option<u32>,
}

/// How a data segment is written: with the memory of an active segment
/// rewritten.
pub open spec fn data_emit(module: Module, live: Uses, index: u32) -> DataEmit {
    DataEmit {
        index,
        memory: match module.datas@[index as int].kind {
            DataKind::Passive => None,
            DataKind::Active { memory_index, offset_expr: _ } => Some(
                reencoded(live, Relocation::Memory(memory_index)),
            ),
        },
    }
}

/// How an element segment is written: with the table of an active segment
/// rewritten.
pub open spec fn elem_emit(module: Module, live: Uses, index: u32) -> ElemEmit {
    ElemEmit {
        index,
        table: match module.elems@[index as int].kind {
            ElementKind::Active { table_index: Some(table), offset_expr: _ } => Some(
                reencoded(live, Relocation::Table(table)),
            ),
            _ => None,
        },
    }
}

/// The data section: the live data segments in ascending order.
pub open spec fn data_plan(module: Module, live: Uses) -> Seq<DataEmit> {
    Seq::new(live.live_datas@.len(), |k: int| data_emit(module, live, live.live_datas@[k]))
}

/// The element section: the live element segments in ascending order.
pub open spec fn element_plan(module: Module, live: Uses) -> Seq<ElemEmit> {
    Seq::new(live.live_elems@.len(), |k: int| elem_emit(module, live, live.live_elems@[k]))
}

/// The live items are items of the module.
pub open spec fn live_in(module: Module, live: Uses) -> bool {
    forall|r: Relocation| #[trigger] live@.contains(r) ==> module.has(r)
}

/// The function section of the smaller module.
pub fn emit_functions(module: &Module, reencoder: &RelocatingReencoder) -> (res: Vec<u32>)
    requires
        module.counts_consistent(),
        reencoder.well_formed(),
        live_in(*module, reencoder.live()),
    ensures
        res@ == function_plan(*module, reencoder.live()),
{
    let live = reencoder.live_items();
    let defined = defined_live(&live.live_funcs, module.num_imported_functions);
    let mut res: Vec<u32> = Vec::new();
    let mut k: usize = 0;
    while k < defined.len()
        invariant
            0 <= k <= defined.len(),
            reencoder.well_formed(),
            *live == reencoder.live(),
            defined@ == live_from(live.live_funcs@, module.num_imported_functions),
            forall|i: u32| defined@.contains(i) ==> live.live_funcs@.contains(i),
            live_in(*module, *live),
            res@.len() == k,
            forall|i: int|
                0 <= i < k ==> res@[i] == reencoded(
                    *live,
                    Relocation::Type(module.func_types@[defined@[i] as int]),
                ),
        decreases defined.len() - k,
    {
        let func = defined[k];
        proof {
            assert(defined@.contains(func));
            assert(live@.contains(Relocation::Func(func)));
        }
        res.push(reencoder.type_index(module.func_types[func as usize]));
        k += 1;
    }
    proof {
        assert(res@ =~= function_plan(*module, reencoder.live()));
    }
    res
}

/// The memory section of the smaller module.
pub fn emit_memories(module: &Module, reencoder: &RelocatingReencoder) -> (res: Vec<MemoryType>)
    requires
        reencoder.well_formed(),
        live_in(*module, reencoder.live()),
    ensures
        res@ == memory_plan(*module, reencoder.live()),
{
    let live = reencoder.live_items();
    let defined = defined_live(&live.live_memories, module.num_imported_memories);
    let mut res: Vec<MemoryType> = Vec::new();
    let mut k: usize = 0;
    while k < defined.len()
        invariant
            0 <= k <= defined.len(),
            *live == reencoder.live(),
            defined@ == live_from(live.live_memories@, module.num_imported_memories),
            forall|i: u32| defined@.contains(i) ==> live.live_memories@.contains(i),
            live_in(*module, *live),
            res@.len() == k,
            forall|i: int| 0 <= i < k ==> res@[i] == module.memory_types@[defined@[i] as int],
        decreases defined.len() - k,
    {
        let memory = defined[k];
        proof {
            assert(defined@.contains(memory));
            assert(live@.contains(Relocation::Memory(memory)));
        }
        res.push(module.memory_types[memory as usize]);
        k += 1;
    }
    proof {
        assert(res@ =~= memory_plan(*module, reencoder.live()));
    }
    res
}

/// The tag section of the smaller module.
pub fn emit_tags(module: &Module, reencoder: &RelocatingReencoder) -> (res: Vec<TagType>)
    requires
        reencoder.well_formed(),
        live_in(*module, reencoder.live()),
    ensures
        res@ == tag_plan(*module, reencoder.live()),
{
    let live = reencoder.live_items();
    let defined = defined_live(&live.live_tags, module.num_imported_tags);
    let mut res: Vec<TagType> = Vec::new();
    let mut k: usize = 0;
    while k < defined.len()
        invariant
            0 <= k <= defined.len(),
            reencoder.well_formed(),
            *live == reencoder.live(),
            defined@ == live_from(live.live_tags@, module.num_imported_tags),
            forall|i: u32| defined@.contains(i) ==> live.live_tags@.contains(i),
            live_in(*module, *live),
            res@.len() == k,
            forall|i: int|
                0 <= i < k ==> res@[i] == tag_emit(*live, module.tag_types@[defined@[i] as int]),
        decreases defined.len() - k,
    {
        let tag = defined[k];
        proof {
            assert(defined@.contains(tag));
            assert(live@.contains(Relocation::Tag(tag)));
        }
        let ty = module.tag_types[tag as usize];
        res.push(TagType { kind: ty.kind, func_type_idx: reencoder.type_index(ty.func_type_idx) });
        k += 1;
    }
    proof {
        assert(res@ =~= tag_plan(*module, reencoder.live()));
    }
    res
}

/// The start section of the smaller module.
pub fn emit_start(module: &Module, reencoder: &RelocatingReencoder) -> (res: Option<u32>)
    requires
        reencoder.well_formed(),
    ensures
        res == start_plan(*module, reencoder.live()),
{
    match module.start_idx {
        Some(func) => reencoder.get(Relocation::Func(func)),
        None => None,
    }
}

/// The data section of the smaller module.
pub fn emit_datas(module: &Module, reencoder: &RelocatingReencoder) -> (res: Vec<DataEmit>)
    requires
        reencoder.well_formed(),
        live_in(*module, reencoder.live()),
    ensures
        res@ == data_plan(*module, reencoder.live()),
{
    let live = reencoder.live_items();
    let mut res: Vec<DataEmit> = Vec::new();
    let mut k: usize = 0;
    while k < live.live_datas.len()
        invariant
            0 <= k <= live.live_datas.len(),
            reencoder.well_formed(),
            *live == reencoder.live(),
            live_in(*module, *live),
            res@.len() == k,
            forall|i: int| 0 <= i < k ==> res@[i] == data_emit(*module, *live, live.live_datas@[i]),
        decreases live.live_datas.len() - k,
    {
        let index = live.live_datas[k];
        proof {
            assert(live.live_datas@.contains(index));
            assert(live@.contains(Relocation::Data(index)));
        }
        let memory = match &module.datas[index as usize].kind {
            DataKind::Passive => None,
            DataKind::Active { memory_index, offset_expr: _ } => Some(
                reencoder.memory_index(*memory_index),
            ),
        };
        res.push(DataEmit { index, memory });
        k += 1;
    }
    proof {
        assert(res@ =~= data_plan(*module, reencoder.live()));
    }
    res
}

/// The element section of the smaller module.
pub fn emit_elements(module: &Module, reencoder: &RelocatingReencoder) -> (res: Vec<ElemEmit>)
    requires
        reencoder.well_formed(),
        live_in(*module, reencoder.live()),
    ensures
        res@ == element_plan(*module, reencoder.live()),
{
    let live = reencoder.live_items();
    let mut res: Vec<ElemEmit> = Vec::new();
    let mut k: usize = 0;
    while k < live.live_elems.len()
        invariant
            0 <= k <= live.live_elems.len(),
            reencoder.well_formed(),
            *live == reencoder.live(),
            live_in(*module, *live),
            res@.len() == k,
            forall|i: int| 0 <= i < k ==> res@[i] == elem_emit(*module, *live, live.live_elems@[i]),
        decreases live.live_elems.len() - k,
    {
        let index = live.live_elems[k];
        proof {
            assert(live.live_elems@.contains(index));
            assert(live@.contains(Relocation::Elem(index)));
        }
        let table = match &module.elems[index as usize].kind {
            ElementKind::Active { table_index: Some(table), offset_expr: _ } => Some(
                reencoder.table_index(*table),
            ),
            _ => None,
        };
        res.push(ElemEmit { index, table });
        k += 1;
    }
    proof {
        assert(res@ =~= element_plan(*module, reencoder.live()));
    }
    res
}

/// A recursive group as it is written: its live members by their original
/// indices, in ascending order, and whether they are written as a
/// recursive group or as one bare type.
#[derive(Clone, Debug, PartialEq, Eq)]
pub struct GroupEmit {
    pub rec: bool,
    pub members: Vec<u32>,
}

impl View for GroupEmit {
    type V = (bool, Seq<u32>);

    open spec fn view(&self) -> (bool, Seq<u32>) {
        (self.rec, self.members@)
    }
}

/// How one recursive group is written. A group without a live member is
/// not written. The live members of a group that the input marked as
/// recursive and that held more than one type are written as a recursive
/// group, even if one is left; the type of any other group is written
/// bare.
pub open spec fn group_emit(group: RecGroup, start: u32, live_types: Seq<u32>) -> Option<
    (bool, Seq<u32>),
> {
    let members = live_between(live_types, start, (start + group.len) as u32);
    if members.len() == 0 {
        None
    } else {
        Some((group.explicit && group.len > 1, members))
    }
}

/// The type section: the groups of the input in their order, each as
/// `group_emit` says.
pub open spec fn type_plan(groups: Seq<RecGroup>, live_types: Seq<u32>) -> Seq<(bool, Seq<u32>)>
    decreases groups.len(),
{
    if groups.len() == 0 {
        Seq::empty()
    } else {
        let rest = type_plan(groups.drop_last(), live_types);
        match group_emit(groups.last(), group_total(groups.drop_last()) as u32, live_types) {
            Some(emit) => rest.push(emit),
            None => rest,
        }
    }
}

/// The views of the groups of a list.
pub open spec fn group_views(groups: Seq<GroupEmit>) -> Seq<(bool, Seq<u32>)> {
    Seq::new(groups.len(), |k: int| groups[k]@)
}

/// The type section of the smaller module.
pub fn emit_types(module: &Module, reencoder: &RelocatingReencoder) -> (res: Vec<GroupEmit>)
    requires
        module.counts_consistent(),
        module.groups_fit(),
        reencoder.well_formed(),
    ensures
        group_views(res@) == type_plan(module.rec_groups@, reencoder.live().live_types@),
{
    let live = reencoder.live_items();
    let mut res: Vec<GroupEmit> = Vec::new();
    let mut start: u32 = 0;
    let mut g: usize = 0;
    while g < module.rec_groups.len()
        invariant
            0 <= g <= module.rec_groups.len(),
            module.counts_consistent(),
            module.groups_fit(),
            *live == reencoder.live(),
            live.well_formed(),
            start == group_total(module.rec_groups@.subrange(0, g as int)),
            group_views(res@) == type_plan(
                module.rec_groups@.subrange(0, g as int),
                live.live_types@,
            ),
        decreases module.rec_groups.len() - g,
    {
        let group = module.rec_groups[g];
        let ghost before = module.rec_groups@.subrange(0, g as int);
        let ghost next = module.rec_groups@.subrange(0, g + 1);
        let ghost views_before = group_views(res@);
        proof {
            assert(next.drop_last() =~= before);
            assert(next.last() == group);
            lemma_group_total_prefix(module.rec_groups@, g + 1);
        }
        let end: u32 = start + group.len;
        let members = live_range(&live.live_types, start, end);
        if members.len() > 0 {
            let emit = GroupEmit { rec: group.explicit && group.len > 1, members };
            res.push(emit);
            proof {
                assert(group_views(res@) =~= views_before.push(emit@));
            }
        }
        start = end;
        g += 1;
    }
    proof {
        assert(module.rec_groups@.subrange(0, module.rec_groups.len() as int)
            =~= module.rec_groups@);
    }
    res
}

/// The import section: the positions, in ascending order, of the imports
/// whose item is live.
pub open spec fn import_plan(imports: Seq<Import>, live: Uses) -> Seq<u32>
    decreases imports.len(),
{
    if imports.len() == 0 {
        Seq::empty()
    } else {
        let rest = import_plan(imports.drop_last(), live);
        let k = imports.len() - 1;
        if live@.contains(import_item(imports, k)) {
            rest.push(k as u32)
        } else {
            rest
        }
    }
}

/// The import section of the smaller module.
pub fn emit_imports(module: &Module, reencoder: &RelocatingReencoder) -> (res: Vec<u32>)
    requires
        module.imports@.len() <= u32::MAX,
        reencoder.well_formed(),
    ensures
        res@ == import_plan(module.imports@, reencoder.live()),
{
    let live = reencoder.live_items();
    let imports = &module.imports;
    let mut res: Vec<u32> = Vec::new();
    let mut funcs: u32 = 0;
    let mut tables: u32 = 0;
    let mut memories: u32 = 0;
    let mut globals: u32 = 0;
    let mut tags: u32 = 0;
    let mut k: usize = 0;
    while k < imports.len()
        invariant
            0 <= k <= imports.len() <= u32::MAX,
            imports == &module.imports,
            *live == reencoder.live(),
            live.well_formed(),
            funcs == count_imports(imports@.subrange(0, k as int), Relocation::Func(0)),
            tables == count_imports(imports@.subrange(0, k as int), Relocation::Table(0)),
            memories == count_imports(imports@.subrange(0, k as int), Relocation::Memory(0)),
            globals == count_imports(imports@.subrange(0, k as int), Relocation::Global(0)),
            tags == count_imports(imports@.subrange(0, k as int), Relocation::Tag(0)),
            funcs <= k && tables <= k && memories <= k && globals <= k && tags <= k,
            res@ == import_plan(imports@.subrange(0, k as int), *live),
        decreases imports.len() - k,
    {
        let ghost before = imports@.subrange(0, k as int);
        let ghost next = imports@.subrange(0, k + 1);
        proof {
            assert(next.drop_last() =~= before);
            assert(next.subrange(0, k as int) =~= before);
            assert(next.last() == imports@[k as int]);
            assert(import_item(next, k as int) == import_item(imports@, k as int));
        }
        let item = match &imports[k].ty {
            TypeRef::Func(_) | TypeRef::FuncExact(_) => {
                funcs += 1;
                Relocation::Func(funcs - 1)
            },
            TypeRef::Table(_) => {
                tables += 1;
                Relocation::Table(tables - 1)
            },
            TypeRef::Memory(_) => {
                memories += 1;
                Relocation::Memory(memories - 1)
            },
            TypeRef::Global(_) => {
                globals += 1;
                Relocation::Global(globals - 1)
            },
            TypeRef::Tag(_) => {
                tags += 1;
                Relocation::Tag(tags - 1)
            },
        };
        assert(item == import_item(next, k as int));
        if live.contains(item) {
            res.push(k as u32);
        }
        k += 1;
    }
    proof {
        assert(imports@.subrange(0, imports.len() as int) =~= imports@);
    }
    res
}

/// The kinds of items that a module can export.
#[derive(Clone, Copy, Debug, PartialEq, Eq, Structural)]
pub enum ExportKind {
    Func,
    Table,
    Memory,
    Global,
    Tag,
}

/// The kind under which an export of the input is written. An export of
/// a function by its exact type is written as an export of the function.
pub open spec fn written_kind(kind: ExternalKind) -> ExportKind {
    match kind {
        ExternalKind::Func => ExportKind::Func,
        ExternalKind::FuncExact => ExportKind::Func,
        ExternalKind::Table => ExportKind::Table,
        ExternalKind::Memory => ExportKind::Memory,
        ExternalKind::Global => ExportKind::Global,
        ExternalKind::Tag => ExportKind::Tag,
    }
}

/// An export of the smaller module: its name, its kind, and the new index
/// of the item.
#[derive(Clone, Debug, PartialEq, Eq)]
pub struct ExportEntry {
    pub name: String,
    pub kind: ExportKind,
    pub index: u32,
}

impl View for ExportEntry {
    type V = (Seq<char>, ExportKind, u32);

    open spec fn view(&self) -> (Seq<char>, ExportKind, u32) {
        (self.name@, self.kind, self.index)
    }
}

/// The views of the exports of a list.
pub open spec fn export_views(entries: Seq<ExportEntry>) -> Seq<(Seq<char>, ExportKind, u32)> {
    Seq::new(entries.len(), |k: int| entries[k]@)
}

/// The exports of the input that are kept: those whose item is live, in
/// their order, each under its name and with the item's new index.
pub open spec fn kept_exports(exports: Seq<Export>, live: Uses) -> Seq<
    (Seq<char>, ExportKind, u32),
>
    decreases exports.len(),
{
    if exports.len() == 0 {
        Seq::empty()
    } else {
        let rest = kept_exports(exports.drop_last(), live);
        let export = exports.last();
        match new_index(live, export_item(export)) {
            Some(idx) => rest.push((export.name@, written_kind(export.kind), idx)),
            None => rest,
        }
    }
}

/// The kind under which an item of the index space of `space` is
/// exported.
pub open spec fn export_kind(space: Relocation) -> ExportKind {
    match space {
        Relocation::Table(_) => ExportKind::Table,
        Relocation::Global(_) => ExportKind::Global,
        Relocation::Memory(_) => ExportKind::Memory,
        Relocation::Tag(_) => ExportKind::Tag,
        _ => ExportKind::Func,
    }
}

/// The exports that are added for the selected items of one index space:
/// one for each selected index whose item is live, in the order of the
/// selection, at the first place where the index occurs, under the item's
/// well-known name and with its new index.
pub open spec fn added_exports(list: Seq<u32>, space: Relocation, live: Uses) -> Seq<
    (Seq<char>, ExportKind, u32),
>
    decreases list.len(),
{
    if list.len() == 0 {
        Seq::empty()
    } else {
        let rest = added_exports(list.drop_last(), space, live);
        let item = space.with_index(list.last());
        match new_index(live, item) {
            Some(idx) => if list.drop_last().contains(list.last()) {
                rest
            } else {
                rest.push((isolated_name(item), export_kind(space), idx))
            },
            None => rest,
        }
    }
}

/// The export section: the kept exports of the input, then the added
/// ones for the selected functions, tables, globals, memories and tags.
pub open spec fn export_plan(module: Module, selection: Selection, live: Uses) -> Seq<
    (Seq<char>, ExportKind, u32),
> {
    kept_exports(module.exports@, live) + added_exports(
        selection.funcs@,
        Relocation::Func(0),
        live,
    ) + added_exports(selection.tables@, Relocation::Table(0), live) + added_exports(
        selection.globals@,
        Relocation::Global(0),
        live,
    ) + added_exports(selection.memories@, Relocation::Memory(0), live) + added_exports(
        selection.tags@,
        Relocation::Tag(0),
        live,
    )
}

/// Tells whether one of the first `k` indices of the list is `x`.
fn occurs_before(list: &Vec<u32>, k: usize, x: u32) -> (res: bool)
    requires
        k <= list@.len(),
    ensures
        res == list@.subrange(0, k as int).contains(x),
{
    let mut i: usize = 0;
    while i < k
        invariant
            0 <= i <= k <= list@.len(),
            forall|j: int| 0 <= j < i ==> list@[j] != x,
        decreases k - i,
    {
        if list[i] == x {
            assert(list@.subrange(0, k as int)[i as int] == x);
            return true;
        }
        i += 1;
    }
    false
}

/// Appends the exports of the input that are kept.
fn push_kept_exports(
    entries: &mut Vec<ExportEntry>,
    exports: &Vec<Export>,
    reencoder: &RelocatingReencoder,
)
    requires
        reencoder.well_formed(),
    ensures
        export_views(final(entries)@) == export_views(old(entries)@) + kept_exports(
            exports@,
            reencoder.live(),
        ),
{
    let ghost live = reencoder.live();
    let ghost given = export_views(entries@);
    let mut k: usize = 0;
    proof {
        assert(export_views(entries@) =~= given + kept_exports(exports@.subrange(0, 0), live));
    }
    while k < exports.len()
        invariant
            0 <= k <= exports.len(),
            reencoder.well_formed(),
            live == reencoder.live(),
            export_views(entries@) == given + kept_exports(exports@.subrange(0, k as int), live),
        decreases exports.len() - k,
    {
        let ghost views_before = export_views(entries@);
        proof {
            assert(exports@.subrange(0, k + 1).drop_last() =~= exports@.subrange(0, k as int));
            assert(exports@.subrange(0, k + 1).last() == exports@[k as int]);
        }
        let export = &exports[k];
        match reencoder.get(exported_item(export)) {
            Some(idx) => {
                let entry = ExportEntry {
                    name: export.name.clone(),
                    kind: kind_written(export.kind),
                    index: idx,
                };
                entries.push(entry);
                proof {
                    assert(export_views(entries@) =~= views_before.push(entry@));
                    assert(export_views(entries@) =~= given + kept_exports(
                        exports@.subrange(0, k + 1),
                        live,
                    ));
                }
            },
            None => {},
        }
        k += 1;
    }
    proof {
        assert(exports@.subrange(0, exports.len() as int) =~= exports@);
    }
}

/// The kind under which an item of the index space of `space` is
/// exported.
fn kind_of(space: Relocation) -> (res: ExportKind)
    ensures
        res == export_kind(space),
{
    match space {
        Relocation::Table(_) => ExportKind::Table,
        Relocation::Global(_) => ExportKind::Global,
        Relocation::Memory(_) => ExportKind::Memory,
        Relocation::Tag(_) => ExportKind::Tag,
        _ => ExportKind::Func,
    }
}

/// The kind under which an export of the input is written.
fn kind_written(kind: ExternalKind) -> (res: ExportKind)
    ensures
        res == written_kind(kind),
{
    match kind {
        ExternalKind::Func => ExportKind::Func,
        ExternalKind::FuncExact => ExportKind::Func,
        ExternalKind::Table => ExportKind::Table,
        ExternalKind::Memory => ExportKind::Memory,
        ExternalKind::Global => ExportKind::Global,
        ExternalKind::Tag => ExportKind::Tag,
    }
}

/// Appends the exports that are added for the selected items of one index
/// space.
fn push_added_exports(
    entries: &mut Vec<ExportEntry>,
    list: &Vec<u32>,
    space: Relocation,
    reencoder: &RelocatingReencoder,
)
    requires
        reencoder.well_formed(),
    ensures
        export_views(final(entries)@) == export_views(old(entries)@) + added_exports(
            list@,
            space,
            reencoder.live(),
        ),
{
    let ghost live = reencoder.live();
    let ghost given = export_views(entries@);
    let mut k: usize = 0;
    proof {
        assert(export_views(entries@) =~= given + added_exports(
            list@.subrange(0, 0),
            space,
            live,
        ));
    }
    while k < list.len()
        invariant
            0 <= k <= list.len(),
            reencoder.well_formed(),
            live == reencoder.live(),
            export_views(entries@) == given + added_exports(
                list@.subrange(0, k as int),
                space,
                live,
            ),
        decreases list.len() - k,
    {
        let ghost views_before = export_views(entries@);
        proof {
            assert(list@.subrange(0, k + 1).drop_last() =~= list@.subrange(0, k as int));
            assert(list@.subrange(0, k + 1).last() == list@[k as int]);
        }
        let item = space.at(list[k]);
        match reencoder.get(item) {
            Some(idx) => {
                if !occurs_before(list, k, list[k]) {
                    let entry = ExportEntry {
                        name: get_isolated_name(item),
                        kind: kind_of(space),
                        index: idx,
                    };
                    entries.push(entry);
                    proof {
                        assert(export_views(entries@) =~= views_before.push(entry@));
                        assert(export_views(entries@) =~= given + added_exports(
                            list@.subrange(0, k + 1),
                            space,
                            live,
                        ));
                    }
                }
            },
            None => {},
        }
        k += 1;
    }
    proof {
        assert(list@.subrange(0, list.len() as int) =~= list@);
    }
}

/// The export section of the smaller module.
pub fn emit_exports(
    module: &Module,
    selection: &Selection,
    reencoder: &RelocatingReencoder,
) -> (res: Vec<ExportEntry>)
    requires
        reencoder.well_formed(),
    ensures
        export_views(res@) == export_plan(*module, *selection, reencoder.live()),
{
    let mut res: Vec<ExportEntry> = Vec::new();
    assert(export_views(res@) =~= Seq::empty());
    push_kept_exports(&mut res, &module.exports, reencoder);
    push_added_exports(&mut res, &selection.funcs, Relocation::Func(0), reencoder);
    push_added_exports(&mut res, &selection.tables, Relocation::Table(0), reencoder);
    push_added_exports(&mut res, &selection.globals, Relocation::Global(0), reencoder);
    push_added_exports(&mut res, &selection.memories, Relocation::Memory(0), reencoder);
    push_added_exports(&mut res, &selection.tags, Relocation::Tag(0), reencoder);
    assert(export_views(res@) =~= export_plan(*module, *selection, reencoder.live()));
    res
}

/// One section of the smaller module.
///
/// The sections whose entries are types, instructions or constant
/// expressions name the entries to write by their original indices; each
/// index inside an entry is written as the reencoder rewrites it.
#[derive(Clone, Debug, PartialEq, Eq)]
pub enum EmitSection {
    /// A section that is copied as it is.
    Passthrough { id: u8, data: Vec<u8> },
    /// The groups of types to write.
    Type(Vec<GroupEmit>),
    /// The positions of the imports to write.
    Import(Vec<u32>),
    /// The rewritten type index of each function to write.
    Function(Vec<u32>),
    /// The original indices of the defined tables to write.
    Table(Vec<u32>),
    /// The types of the memories to write.
    Memory(Vec<MemoryType>),
    /// The original indices of the defined globals to write.
    Global(Vec<u32>),
    /// The exports to write.
    Export(Vec<ExportEntry>),
    /// The new index of the start function; without one, no start section
    /// is written.
    Start(Option<u32>),
    /// The element segments to write.
    Element(Vec<ElemEmit>),
    /// The original indices of the functions whose bodies to write.
    Code(Vec<u32>),
    /// The data segments to write.
    Data(Vec<DataEmit>),
    /// The number of data segments of the smaller module.
    DataCount(u32),
    /// The types of the tags to write, with the type index rewritten.
    Tag(Vec<TagType>),
}

/// The section `out` is what is written for the section `section` of the
/// input: a section of the same kind, which holds the live items of that
/// kind in ascending order of their original indices, with every index
/// rewritten. A section that is not of a known kind is copied.
pub open spec fn emits(
    out: EmitSection,
    section: Section,
    module: Module,
    selection: Selection,
    live: Uses,
) -> bool {
    match section {
        Section::Passthrough { id, data } => out matches EmitSection::Passthrough {
            id: out_id,
            data: out_data,
        } && out_id == id && out_data@ == data@,
        Section::Type => out matches EmitSection::Type(groups) && group_views(groups@)
            == type_plan(module.rec_groups@, live.live_types@),
        Section::Import => out matches EmitSection::Import(positions) && positions@
            == import_plan(module.imports@, live),
        Section::Function => out matches EmitSection::Function(types) && types@ == function_plan(
            module,
            live,
        ),
        Section::Table => out matches EmitSection::Table(tables) && tables@ == live_from(
            live.live_tables@,
            module.num_imported_tables,
        ),
        Section::Memory => out matches EmitSection::Memory(memories) && memories@ == memory_plan(
            module,
            live,
        ),
        Section::Global => out matches EmitSection::Global(globals) && globals@ == live_from(
            live.live_globals@,
            module.num_imported_globals,
        ),
        Section::Export => out matches EmitSection::Export(entries) && export_views(entries@)
            == export_plan(module, selection, live),
        Section::Start => out matches EmitSection::Start(func) && func == start_plan(module, live),
        Section::Element => out matches EmitSection::Element(elems) && elems@ == element_plan(
            module,
            live,
        ),
        Section::Code => out matches EmitSection::Code(funcs) && funcs@ == live_from(
            live.live_funcs@,
            module.num_imported_functions,
        ),
        Section::Data => out matches EmitSection::Data(datas) && datas@ == data_plan(module, live),
        Section::DataCount => out matches EmitSection::DataCount(count) && count
            == live.live_datas@.len(),
        Section::Tag => out matches EmitSection::Tag(tags) && tags@ == tag_plan(module, live),
    }
}

/// What is written for one section of the input.
pub fn emit_section(
    module: &Module,
    selection: &Selection,
    reencoder: &RelocatingReencoder,
    section: &Section,
) -> (res: EmitSection)
    requires
        module.well_formed(),
        reencoder.well_formed(),
        live_in(*module, reencoder.live()),
    ensures
        emits(res, *section, *module, *selection, reencoder.live()),
{
    let live = reencoder.live_items();
    match section {
        Section::Passthrough { id, data } => {
            let copy = data.clone();
            assert(copy@ =~= data@);
            EmitSection::Passthrough { id: *id, data: copy }
        },
        Section::Type => EmitSection::Type(emit_types(module, reencoder)),
        Section::Import => EmitSection::Import(emit_imports(module, reencoder)),
        Section::Function => EmitSection::Function(emit_functions(module, reencoder)),
        Section::Table => EmitSection::Table(
            defined_live(&live.live_tables, module.num_imported_tables),
        ),
        Section::Memory => EmitSection::Memory(emit_memories(module, reencoder)),
        Section::Global => EmitSection::Global(
            defined_live(&live.live_globals, module.num_imported_globals),
        ),
        Section::Export => EmitSection::Export(emit_exports(module, selection, reencoder)),
        Section::Start => EmitSection::Start(emit_start(module, reencoder)),
        Section::Element => EmitSection::Element(emit_elements(module, reencoder)),
        Section::Code => EmitSection::Code(
            defined_live(&live.live_funcs, module.num_imported_functions),
        ),
        Section::Data => EmitSection::Data(emit_datas(module, reencoder)),
        Section::DataCount => {
            proof {
                lemma_space_bound(*module, *live, Relocation::Data(0));
            }
            EmitSection::DataCount(live.live_datas.len() as u32)
        },
        Section::Tag => EmitSection::Tag(emit_tags(module, reencoder)),
    }
}

/// The sections of the smaller module: one for each section of the input,
/// in the order of the input.
pub fn emit_sections(
    module: &Module,
    selection: &Selection,
    reencoder: &RelocatingReencoder,
) -> (res: Vec<EmitSection>)
    requires
        module.well_formed(),
        reencoder.well_formed(),
        live_in(*module, reencoder.live()),
    ensures
        res@.len() == module.sections@.len(),
        forall|k: int|
            0 <= k < res@.len() ==> emits(
                #[trigger] res@[k],
                module.sections@[k],
                *module,
                *selection,
                reencoder.live(),
            ),
{
    let mut res: Vec<EmitSection> = Vec::new();
    let mut k: usize = 0;
    while k < module.sections.len()
        invariant
            0 <= k <= module.sections.len(),
            module.well_formed(),
            reencoder.well_formed(),
            live_in(*module, reencoder.live()),
            res@.len() == k,
            forall|i: int|
                0 <= i < k ==> emits(
                    #[trigger] res@[i],
                    module.sections@[i],
                    *module,
                    *selection,
                    reencoder.live(),
                ),
        decreases module.sections.len() - k,
    {
        let out = emit_section(module, selection, reencoder, &module.sections[k]);
        res.push(out);
        k += 1;
    }
    res
}

} // verus!
