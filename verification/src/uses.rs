//! Sets of items, one strictly ascending list per index space.

use crate::operators::Operator;
use crate::relocation::Relocation;
use crate::sorted::{
    holds, insert_all, insert_unique, is_strictly_ascending, sort_dedup, strictly_ascending,
    union_sorted,
};
use crate::types::{
    ArrayType, BlockType, Catch, CompositeInnerType, FieldType, FuncType, GlobalType, HeapType,
    MemArg, RefType, StorageType, StructType, TableType, TagType, TryTable, ValType,
};
use vstd::prelude::*;

verus! {

/// A set of items of a module, kept as one list of indices per index space.
///
/// The functions of this library hand out only well-formed values, in which
/// every list is strictly ascending; `merge` accepts any value and leaves a
/// well-formed one.
#[derive(Debug)]
pub struct Uses {
    pub live_types: Vec<u32>,
    pub live_funcs: Vec<u32>,
    pub live_tables: Vec<u32>,
    pub live_globals: Vec<u32>,
    pub live_memories: Vec<u32>,
    pub live_datas: Vec<u32>,
    pub live_elems: Vec<u32>,
    pub live_tags: Vec<u32>,
}

impl View for Uses {
    type V = Set<Relocation>;

    /// The items that the eight lists hold.
    open spec fn view(&self) -> Set<Relocation> {
        Set::new(|r: Relocation| self.lists(r))
    }
}

impl Default for Uses {
    fn default() -> (res: Uses)
        ensures
            res.well_formed(),
            res@ == Set::<Relocation>::empty(),
            res.live_types@.len() == 0,
            res.live_funcs@.len() == 0,
            res.live_tables@.len() == 0,
            res.live_globals@.len() == 0,
            res.live_memories@.len() == 0,
            res.live_datas@.len() == 0,
            res.live_elems@.len() == 0,
            res.live_tags@.len() == 0,
    {
        let res = Uses {
            live_types: Vec::new(),
            live_funcs: Vec::new(),
            live_tables: Vec::new(),
            live_globals: Vec::new(),
            live_memories: Vec::new(),
            live_datas: Vec::new(),
            live_elems: Vec::new(),
            live_tags: Vec::new(),
        };
        assert(res@ =~= Set::<Relocation>::empty());
        res
    }
}

impl Uses {
    /// The list of the item's index space holds the item's index.
    pub open spec fn lists(&self, r: Relocation) -> bool {
        self.space(r).contains(r.spec_index())
    }

    /// The list of the index space that `r` belongs to.
    pub open spec fn space(&self, r: Relocation) -> Seq<u32> {
        match r {
            Relocation::Type(_) => self.live_types@,
            Relocation::Func(_) => self.live_funcs@,
            Relocation::Table(_) => self.live_tables@,
            Relocation::Global(_) => self.live_globals@,
            Relocation::Memory(_) => self.live_memories@,
            Relocation::Data(_) => self.live_datas@,
            Relocation::Elem(_) => self.live_elems@,
            Relocation::Tag(_) => self.live_tags@,
        }
    }

    /// Every list is strictly ascending: sorted, and without duplicates.
    pub open spec fn well_formed(&self) -> bool {
        &&& strictly_ascending(self.live_types@)
        &&& strictly_ascending(self.live_funcs@)
        &&& strictly_ascending(self.live_tables@)
        &&& strictly_ascending(self.live_globals@)
        &&& strictly_ascending(self.live_memories@)
        &&& strictly_ascending(self.live_datas@)
        &&& strictly_ascending(self.live_elems@)
        &&& strictly_ascending(self.live_tags@)
    }

    /// The number of items in all eight lists together.
    pub open spec fn count(&self) -> nat {
        self.live_types@.len() + self.live_funcs@.len() + self.live_tables@.len()
            + self.live_globals@.len() + self.live_memories@.len() + self.live_datas@.len()
            + self.live_elems@.len() + self.live_tags@.len()
    }

    /// The set that holds the type `idx` and nothing else.
    pub fn single_type(idx: u32) -> (res: Uses)
        ensures
            res.well_formed(),
            res@ == set![Relocation::Type(idx)],
    {
        let mut res = Uses::default();
        res.live_types.push(idx);
        proof {
            assert(res.live_types@[0] == idx);
            assert(res@ =~= set![Relocation::Type(idx)]);
        }
        res
    }

    /// The set that holds the function `idx` and nothing else.
    pub fn single_func(idx: u32) -> (res: Uses)
        ensures
            res.well_formed(),
            res@ == set![Relocation::Func(idx)],
    {
        let mut res = Uses::default();
        res.live_funcs.push(idx);
        proof {
            assert(res.live_funcs@[0] == idx);
            assert(res@ =~= set![Relocation::Func(idx)]);
        }
        res
    }

    /// The set that holds the table `idx` and nothing else.
    pub fn single_table(idx: u32) -> (res: Uses)
        ensures
            res.well_formed(),
            res@ == set![Relocation::Table(idx)],
    {
        let mut res = Uses::default();
        res.live_tables.push(idx);
        proof {
            assert(res.live_tables@[0] == idx);
            assert(res@ =~= set![Relocation::Table(idx)]);
        }
        res
    }

    /// The set that holds the global `idx` and nothing else.
    pub fn single_global(idx: u32) -> (res: Uses)
        ensures
            res.well_formed(),
            res@ == set![Relocation::Global(idx)],
    {
        let mut res = Uses::default();
        res.live_globals.push(idx);
        proof {
            assert(res.live_globals@[0] == idx);
            assert(res@ =~= set![Relocation::Global(idx)]);
        }
        res
    }

    /// The set that holds the memory `idx` and nothing else.
    pub fn single_memory(idx: u32) -> (res: Uses)
        ensures
            res.well_formed(),
            res@ == set![Relocation::Memory(idx)],
    {
        let mut res = Uses::default();
        res.live_memories.push(idx);
        proof {
            assert(res.live_memories@[0] == idx);
            assert(res@ =~= set![Relocation::Memory(idx)]);
        }
        res
    }

    /// The set that holds the data segment `idx` and nothing else.
    pub fn single_data(idx: u32) -> (res: Uses)
        ensures
            res.well_formed(),
            res@ == set![Relocation::Data(idx)],
    {
        let mut res = Uses::default();
        res.live_datas.push(idx);
        proof {
            assert(res.live_datas@[0] == idx);
            assert(res@ =~= set![Relocation::Data(idx)]);
        }
        res
    }

    /// The set that holds the element segment `idx` and nothing else.
    pub fn single_elem(idx: u32) -> (res: Uses)
        ensures
            res.well_formed(),
            res@ == set![Relocation::Elem(idx)],
    {
        let mut res = Uses::default();
        res.live_elems.push(idx);
        proof {
            assert(res.live_elems@[0] == idx);
            assert(res@ =~= set![Relocation::Elem(idx)]);
        }
        res
    }

    /// The set that holds the tag `idx` and nothing else.
    pub fn single_tag(idx: u32) -> (res: Uses)
        ensures
            res.well_formed(),
            res@ == set![Relocation::Tag(idx)],
    {
        let mut res = Uses::default();
        res.live_tags.push(idx);
        proof {
            assert(res.live_tags@[0] == idx);
            assert(res@ =~= set![Relocation::Tag(idx)]);
        }
        res
    }

    /// The set that holds the one item `item`.
    pub fn single(item: Relocation) -> (res: Uses)
        ensures
            res.well_formed(),
            res@ == set![item],
    {
        match item {
            Relocation::Type(i) => Uses::single_type(i),
            Relocation::Func(i) => Uses::single_func(i),
            Relocation::Table(i) => Uses::single_table(i),
            Relocation::Global(i) => Uses::single_global(i),
            Relocation::Memory(i) => Uses::single_memory(i),
            Relocation::Data(i) => Uses::single_data(i),
            Relocation::Elem(i) => Uses::single_elem(i),
            Relocation::Tag(i) => Uses::single_tag(i),
        }
    }

    /// The set that holds the items `a` and `b`.
    pub fn pair(a: Relocation, b: Relocation) -> (res: Uses)
        ensures
            res.well_formed(),
            res@ == set![a, b],
    {
        let mut res = Uses::single(a);
        res.merge(Uses::single(b));
        assert(res@ =~= set![a, b]);
        res
    }

    /// The union of the given sets.
    pub fn all(useses: Vec<Uses>) -> (res: Uses)
        ensures
            res.well_formed(),
            forall|r: Relocation|
                res@.contains(r) <==> exists|k: int|
                    0 <= k < useses@.len() && (#[trigger] useses@[k])@.contains(r),
    {
        let mut res = Uses::default();
        let mut useses = useses;
        let ghost given = useses@;
        while useses.len() > 0
            invariant
                res.well_formed(),
                useses@.len() <= given.len(),
                useses@ =~= given.subrange(0, useses@.len() as int),
                forall|r: Relocation|
                    res@.contains(r) <==> exists|k: int|
                        useses@.len() <= k < given.len() && (#[trigger] given[k])@.contains(r),
            decreases useses.len(),
        {
            let ghost before = res@;
            let ghost n = useses@.len();
            let uses = useses.pop().unwrap();
            assert(uses == given[n - 1]);
            res.merge(uses);
            proof {
                assert forall|r: Relocation|
                    res@.contains(r) <==> exists|k: int|
                        n - 1 <= k < given.len() && (#[trigger] given[k])@.contains(r) by {
                    if before.contains(r) {
                        let k = choose|k: int|
                            n <= k < given.len() && (#[trigger] given[k])@.contains(r);
                        assert(n - 1 <= k < given.len() && given[k]@.contains(r));
                    }
                    if uses@.contains(r) {
                        assert(given[n - 1]@.contains(r));
                    }
                }
            }
        }
        res
    }

    /// Adds the items of `other` to this set. Whatever order the lists of
    /// the two values were in, afterwards every list is strictly ascending.
    pub fn merge(&mut self, other: Uses)
        ensures
            final(self).well_formed(),
            final(self)@ == old(self)@.union(other@),
    {
        let mut other = other;
        let ghost given = other;
        Self::append_and_dedup(&mut self.live_types, &mut other.live_types);
        Self::append_and_dedup(&mut self.live_funcs, &mut other.live_funcs);
        Self::append_and_dedup(&mut self.live_tables, &mut other.live_tables);
        Self::append_and_dedup(&mut self.live_globals, &mut other.live_globals);
        Self::append_and_dedup(&mut self.live_memories, &mut other.live_memories);
        Self::append_and_dedup(&mut self.live_datas, &mut other.live_datas);
        Self::append_and_dedup(&mut self.live_elems, &mut other.live_elems);
        Self::append_and_dedup(&mut self.live_tags, &mut other.live_tags);
        proof {
            let after = *self;
            let before = *old(self);
            assert forall|r: Relocation|
                after@.contains(r) <==> before@.union(given@).contains(r) by {
                assert(after@.contains(r) == after.lists(r));
                assert(before@.contains(r) == before.lists(r));
                assert(given@.contains(r) == given.lists(r));
            }
            assert(after@ =~= before@.union(given@));
        }
    }

    /// Adds the items of `other` to this set, which is well-formed, one by
    /// one. This is `merge` for a set that is known to be in order.
    pub fn absorb(&mut self, other: &Uses)
        requires
            old(self).well_formed(),
        ensures
            final(self).well_formed(),
            final(self)@ == old(self)@.union(other@),
    {
        insert_all(&mut self.live_types, &other.live_types);
        insert_all(&mut self.live_funcs, &other.live_funcs);
        insert_all(&mut self.live_tables, &other.live_tables);
        insert_all(&mut self.live_globals, &other.live_globals);
        insert_all(&mut self.live_memories, &other.live_memories);
        insert_all(&mut self.live_datas, &other.live_datas);
        insert_all(&mut self.live_elems, &other.live_elems);
        insert_all(&mut self.live_tags, &other.live_tags);
        proof {
            let after = *self;
            let before = *old(self);
            assert forall|r: Relocation|
                after@.contains(r) <==> before@.union(other@).contains(r) by {
                assert(after@.contains(r) == after.lists(r));
                assert(before@.contains(r) == before.lists(r));
                assert(other@.contains(r) == other.lists(r));
            }
            assert(after@ =~= before@.union(other@));
        }
    }

    /// Moves the indices of `other` into `vec`, which is left strictly
    /// ascending: sorted, with every index once. `other` is left empty.
    pub fn append_and_dedup(vec: &mut Vec<u32>, other: &mut Vec<u32>)
        ensures
            strictly_ascending(final(vec)@),
            forall|y: u32|
                final(vec)@.contains(y) <==> (old(vec)@.contains(y) || old(other)@.contains(y)),
            final(other)@.len() == 0,
    {
        if !is_strictly_ascending(vec) {
            let sorted = sort_dedup(vec);
            *vec = sorted;
        }
        if !is_strictly_ascending(other) {
            let sorted = sort_dedup(other);
            *other = sorted;
        }
        if other.len() > 0 {
            let merged = union_sorted(vec, other);
            *vec = merged;
            other.clear();
        }
    }

    /// Adds `item` to the set.
    pub fn insert(&mut self, item: Relocation)
        requires
            old(self).well_formed(),
        ensures
            final(self).well_formed(),
            final(self)@ == old(self)@.insert(item),
            final(self).count() == old(self).count() + if old(self)@.contains(item) {
                0nat
            } else {
                1nat
            },
    {
        let ghost before = *self;
        match item {
            Relocation::Type(i) => insert_unique(&mut self.live_types, i),
            Relocation::Func(i) => insert_unique(&mut self.live_funcs, i),
            Relocation::Table(i) => insert_unique(&mut self.live_tables, i),
            Relocation::Global(i) => insert_unique(&mut self.live_globals, i),
            Relocation::Memory(i) => insert_unique(&mut self.live_memories, i),
            Relocation::Data(i) => insert_unique(&mut self.live_datas, i),
            Relocation::Elem(i) => insert_unique(&mut self.live_elems, i),
            Relocation::Tag(i) => insert_unique(&mut self.live_tags, i),
        }
        proof {
            let after = *self;
            assert(before@.contains(item) == before.lists(item));
            assert forall|r: Relocation| after@.contains(r) <==> before@.insert(item).contains(
                r,
            ) by {
                assert(after@.contains(r) == after.lists(r));
                assert(before@.contains(r) == before.lists(r));
            }
            assert(after@ =~= before@.insert(item));
            if !before@.contains(item) {
                let list = before.space(item);
                crate::sorted::lemma_rank_bound(list, item.spec_index());
                list.insert_ensures(
                    crate::sorted::rank(list, item.spec_index()) as int,
                    item.spec_index(),
                );
            }
        }
    }

    /// Tells whether every list is strictly ascending.
    pub fn is_well_formed(&self) -> (res: bool)
        ensures
            res == self.well_formed(),
    {
        is_strictly_ascending(&self.live_types) && is_strictly_ascending(&self.live_funcs)
            && is_strictly_ascending(&self.live_tables) && is_strictly_ascending(
            &self.live_globals,
        ) && is_strictly_ascending(&self.live_memories) && is_strictly_ascending(&self.live_datas)
            && is_strictly_ascending(&self.live_elems) && is_strictly_ascending(&self.live_tags)
    }

    /// Tells whether the set holds `item`.
    pub fn contains(&self, item: Relocation) -> (res: bool)
        requires
            self.well_formed(),
        ensures
            res == self@.contains(item),
    {
        match item {
            Relocation::Type(i) => holds(&self.live_types, i),
            Relocation::Func(i) => holds(&self.live_funcs, i),
            Relocation::Table(i) => holds(&self.live_tables, i),
            Relocation::Global(i) => holds(&self.live_globals, i),
            Relocation::Memory(i) => holds(&self.live_memories, i),
            Relocation::Data(i) => holds(&self.live_datas, i),
            Relocation::Elem(i) => holds(&self.live_elems, i),
            Relocation::Tag(i) => holds(&self.live_tags, i),
        }
    }
}

/// What a heap type uses: the type of the module that it names. Abstract
/// heap types use nothing.
pub open spec fn heaptype_uses(ty: HeapType) -> Set<Relocation> {
    match ty {
        HeapType::Abstract { .. } => Set::empty(),
        HeapType::Concrete(idx) => set![Relocation::Type(idx)],
        HeapType::Exact(idx) => set![Relocation::Type(idx)],
    }
}

/// What a reference type uses: what its heap type uses.
pub open spec fn reftype_uses(ty: RefType) -> Set<Relocation> {
    heaptype_uses(ty.heap_type)
}

/// What a value type uses: nothing, unless it is a reference type.
pub open spec fn valtype_uses(ty: ValType) -> Set<Relocation> {
    match ty {
        ValType::Ref(ref_type) => reftype_uses(ref_type),
        _ => Set::empty(),
    }
}

/// What any of the value types of a list uses.
pub open spec fn valtypes_uses(tys: Seq<ValType>) -> Set<Relocation> {
    Set::new(
        |r: Relocation|
            exists|k: int| 0 <= k < tys.len() && #[trigger] valtype_uses(tys[k]).contains(r),
    )
}

/// What a storage type uses: nothing if packed, else what the value type
/// uses.
pub open spec fn storagetype_uses(ty: StorageType) -> Set<Relocation> {
    match ty {
        StorageType::I8 => Set::empty(),
        StorageType::I16 => Set::empty(),
        StorageType::Val(val_type) => valtype_uses(val_type),
    }
}

/// What a field uses: what its storage type uses.
pub open spec fn fieldtype_uses(ty: FieldType) -> Set<Relocation> {
    storagetype_uses(ty.element_type)
}

/// What an array type uses: what its element uses.
pub open spec fn arraytype_uses(ty: ArrayType) -> Set<Relocation> {
    fieldtype_uses(ty.0)
}

/// What a struct type uses: what any of its fields uses.
pub open spec fn structtype_uses(ty: StructType) -> Set<Relocation> {
    Set::new(
        |r: Relocation|
            exists|k: int|
                0 <= k < ty.fields@.len() && #[trigger] fieldtype_uses(ty.fields@[k]).contains(r),
    )
}

/// What a function type uses: what its parameters and results use.
pub open spec fn functype_uses(ty: FuncType) -> Set<Relocation> {
    valtypes_uses(ty.params@).union(valtypes_uses(ty.results@))
}

/// What a defined type uses. A continuation type is not walked.
pub open spec fn type_uses(ty: CompositeInnerType) -> Set<Relocation> {
    match ty {
        CompositeInnerType::Func(func_type) => functype_uses(func_type),
        CompositeInnerType::Array(array_type) => arraytype_uses(array_type),
        CompositeInnerType::Struct(struct_type) => structtype_uses(struct_type),
        CompositeInnerType::Cont(_) => Set::empty(),
    }
}

/// What a table type uses: what its element type uses.
pub open spec fn tabletype_uses(ty: TableType) -> Set<Relocation> {
    reftype_uses(ty.element_type)
}

/// What a global type uses: what its content type uses.
pub open spec fn globaltype_uses(ty: GlobalType) -> Set<Relocation> {
    valtype_uses(ty.content_type)
}

/// What a tag type uses: its function type.
pub open spec fn tagtype_uses(ty: TagType) -> Set<Relocation> {
    set![Relocation::Type(ty.func_type_idx)]
}

/// What a block type uses: its result type's uses, or its function type.
pub open spec fn blocktype_uses(blockty: BlockType) -> Set<Relocation> {
    match blockty {
        BlockType::Empty => Set::empty(),
        BlockType::Type(val_type) => valtype_uses(val_type),
        BlockType::FuncType(ty) => set![Relocation::Type(ty)],
    }
}

/// What a memory operand uses: its memory.
pub open spec fn memarg_uses(memarg: MemArg) -> Set<Relocation> {
    set![Relocation::Memory(memarg.memory)]
}

/// What a handler uses: its tag, if it has one.
pub open spec fn catch_uses(c: Catch) -> Set<Relocation> {
    match c {
        Catch::One { tag, label: _ } => set![Relocation::Tag(tag)],
        Catch::OneRef { tag, label: _ } => set![Relocation::Tag(tag)],
        Catch::All { label: _ } => Set::empty(),
        Catch::AllRef { label: _ } => Set::empty(),
    }
}

/// What any of the handlers of a list uses.
pub open spec fn catches_uses(catches: Seq<Catch>) -> Set<Relocation> {
    Set::new(
        |r: Relocation|
            exists|k: int| 0 <= k < catches.len() && #[trigger] catch_uses(catches[k]).contains(r),
    )
}

/// What a `try_table` uses: its block type's uses and its handlers' tags.
pub open spec fn trytable_uses(try_table: TryTable) -> Set<Relocation> {
    blocktype_uses(try_table.ty).union(catches_uses(try_table.catches@))
}

/// The items that a defined type references.
pub fn get_type_uses(ty: &CompositeInnerType) -> (res: Uses)
    ensures
        res.well_formed(),
        res@ == type_uses(*ty),
{
    match ty {
        CompositeInnerType::Func(func_type) => get_functype_uses(func_type),
        CompositeInnerType::Array(array_type) => get_arraytype_uses(array_type),
        CompositeInnerType::Struct(struct_type) => get_structtype_uses(struct_type),
        CompositeInnerType::Cont(_) => Uses::default(),
    }
}

/// The items that the value types of a list reference.
pub fn get_valtypes_uses(tys: &Vec<ValType>) -> (res: Uses)
    ensures
        res.well_formed(),
        res@ == valtypes_uses(tys@),
{
    let mut res = Uses::default();
    let mut k: usize = 0;
    while k < tys.len()
        invariant
            0 <= k <= tys.len(),
            res.well_formed(),
            res@ == valtypes_uses(tys@.subrange(0, k as int)),
        decreases tys.len() - k,
    {
        let ghost seen = tys@.subrange(0, k as int);
        let ghost next = tys@.subrange(0, k + 1);
        res.absorb(&get_valtype_uses(&tys[k]));
        proof {
            assert forall|r: Relocation| res@.contains(r) <==> valtypes_uses(next).contains(r) by {
                if valtypes_uses(seen).contains(r) {
                    let i = choose|i: int|
                        0 <= i < seen.len() && #[trigger] valtype_uses(seen[i]).contains(r);
                    assert(valtype_uses(next[i]).contains(r));
                }
                if valtype_uses(tys@[k as int]).contains(r) {
                    assert(valtype_uses(next[k as int]).contains(r));
                }
                if valtypes_uses(next).contains(r) {
                    let i = choose|i: int|
                        0 <= i < next.len() && #[trigger] valtype_uses(next[i]).contains(r);
                    if i < k {
                        assert(valtype_uses(seen[i]).contains(r));
                    }
                }
            }
            assert(res@ =~= valtypes_uses(next));
        }
        k += 1;
    }
    proof {
        assert(tys@.subrange(0, tys.len() as int) =~= tys@);
    }
    res
}

/// The items that a function type references.
pub fn get_functype_uses(ty: &FuncType) -> (res: Uses)
    ensures
        res.well_formed(),
        res@ == functype_uses(*ty),
{
    let mut res = get_valtypes_uses(&ty.params);
    res.absorb(&get_valtypes_uses(&ty.results));
    res
}

/// The items that an array type references.
pub fn get_arraytype_uses(ty: &ArrayType) -> (res: Uses)
    ensures
        res.well_formed(),
        res@ == arraytype_uses(*ty),
{
    get_fieldtype_uses(&ty.0)
}

/// The items that a struct type references.
pub fn get_structtype_uses(ty: &StructType) -> (res: Uses)
    ensures
        res.well_formed(),
        res@ == structtype_uses(*ty),
{
    let mut res = Uses::default();
    let mut k: usize = 0;
    while k < ty.fields.len()
        invariant
            0 <= k <= ty.fields.len(),
            res.well_formed(),
            forall|r: Relocation|
                res@.contains(r) <==> exists|i: int|
                    0 <= i < k && #[trigger] fieldtype_uses(ty.fields@[i]).contains(r),
        decreases ty.fields.len() - k,
    {
        let ghost before = res@;
        res.absorb(&get_fieldtype_uses(&ty.fields[k]));
        proof {
            assert forall|r: Relocation|
                res@.contains(r) <==> exists|i: int|
                    0 <= i < k + 1 && #[trigger] fieldtype_uses(ty.fields@[i]).contains(r) by {
                if before.contains(r) {
                    let i = choose|i: int|
                        0 <= i < k && #[trigger] fieldtype_uses(ty.fields@[i]).contains(r);
                    assert(0 <= i < k + 1 && fieldtype_uses(ty.fields@[i]).contains(r));
                }
            }
        }
        k += 1;
    }
    assert(res@ =~= structtype_uses(*ty));
    res
}

/// The items that a field references.
pub fn get_fieldtype_uses(ty: &FieldType) -> (res: Uses)
    ensures
        res.well_formed(),
        res@ == fieldtype_uses(*ty),
{
    get_storagetype_uses(&ty.element_type)
}

/// The items that a storage type references.
pub fn get_storagetype_uses(ty: &StorageType) -> (res: Uses)
    ensures
        res.well_formed(),
        res@ == storagetype_uses(*ty),
{
    match ty {
        StorageType::I8 | StorageType::I16 => Uses::default(),
        StorageType::Val(val_type) => get_valtype_uses(val_type),
    }
}

/// The items that a table type references.
pub fn get_tabletype_uses(ty: &TableType) -> (res: Uses)
    ensures
        res.well_formed(),
        res@ == tabletype_uses(*ty),
{
    get_reftype_uses(&ty.element_type)
}

/// The items that a global type references.
pub fn get_globaltype_uses(ty: &GlobalType) -> (res: Uses)
    ensures
        res.well_formed(),
        res@ == globaltype_uses(*ty),
{
    get_valtype_uses(&ty.content_type)
}

/// The items that a tag type references.
pub fn get_tagtype_uses(ty: &TagType) -> (res: Uses)
    ensures
        res.well_formed(),
        res@ == tagtype_uses(*ty),
{
    Uses::single_type(ty.func_type_idx)
}

/// The items that a value type references.
pub fn get_valtype_uses(ty: &ValType) -> (res: Uses)
    ensures
        res.well_formed(),
        res@ == valtype_uses(*ty),
{
    match ty {
        ValType::Ref(ref_type) => get_reftype_uses(ref_type),
        _ => Uses::default(),
    }
}

/// The items that a reference type references.
pub fn get_reftype_uses(ty: &RefType) -> (res: Uses)
    ensures
        res.well_formed(),
        res@ == reftype_uses(*ty),
{
    get_heaptype_uses(&ty.heap_type)
}

/// The items that a heap type references.
pub fn get_heaptype_uses(ty: &HeapType) -> (res: Uses)
    ensures
        res.well_formed(),
        res@ == heaptype_uses(*ty),
{
    match ty {
        HeapType::Abstract { .. } => Uses::default(),
        HeapType::Concrete(idx) => Uses::single_type(*idx),
        HeapType::Exact(idx) => Uses::single_type(*idx),
    }
}

/// The items that a block type references.
pub fn get_blocktype_uses(blockty: &BlockType) -> (res: Uses)
    ensures
        res.well_formed(),
        res@ == blocktype_uses(*blockty),
{
    match blockty {
        BlockType::Empty => Uses::default(),
        BlockType::Type(val_type) => get_valtype_uses(val_type),
        BlockType::FuncType(ty) => Uses::single_type(*ty),
    }
}

/// The items that a memory operand references.
pub fn get_memarg_uses(memarg: &MemArg) -> (res: Uses)
    ensures
        res.well_formed(),
        res@ == memarg_uses(*memarg),
{
    Uses::single_memory(memarg.memory)
}

/// The items that a handler references.
pub fn get_catch_uses(catch: &Catch) -> (res: Uses)
    ensures
        res.well_formed(),
        res@ == catch_uses(*catch),
{
    match catch {
        Catch::One { tag, label: _ } => Uses::single_tag(*tag),
        Catch::OneRef { tag, label: _ } => Uses::single_tag(*tag),
        Catch::All { label: _ } => Uses::default(),
        Catch::AllRef { label: _ } => Uses::default(),
    }
}

/// The items that the handlers of a list reference.
pub fn get_catches_uses(catches: &Vec<Catch>) -> (res: Uses)
    ensures
        res.well_formed(),
        res@ == catches_uses(catches@),
{
    let mut res = Uses::default();
    let mut k: usize = 0;
    while k < catches.len()
        invariant
            0 <= k <= catches.len(),
            res.well_formed(),
            res@ == catches_uses(catches@.subrange(0, k as int)),
        decreases catches.len() - k,
    {
        let ghost seen = catches@.subrange(0, k as int);
        let ghost next = catches@.subrange(0, k + 1);
        res.absorb(&get_catch_uses(&catches[k]));
        proof {
            assert forall|r: Relocation| res@.contains(r) <==> catches_uses(next).contains(r) by {
                if catches_uses(seen).contains(r) {
                    let i = choose|i: int|
                        0 <= i < seen.len() && #[trigger] catch_uses(seen[i]).contains(r);
                    assert(catch_uses(next[i]).contains(r));
                }
                if catch_uses(catches@[k as int]).contains(r) {
                    assert(catch_uses(next[k as int]).contains(r));
                }
                if catches_uses(next).contains(r) {
                    let i = choose|i: int|
                        0 <= i < next.len() && #[trigger] catch_uses(next[i]).contains(r);
                    if i < k {
                        assert(catch_uses(seen[i]).contains(r));
                    }
                }
            }
            assert(res@ =~= catches_uses(next));
        }
        k += 1;
    }
    proof {
        assert(catches@.subrange(0, catches.len() as int) =~= catches@);
    }
    res
}

/// The items that a `try_table` references.
pub fn get_trytable_uses(try_table: &TryTable) -> (res: Uses)
    ensures
        res.well_formed(),
        res@ == trytable_uses(*try_table),
{
    let mut res = get_blocktype_uses(&try_table.ty);
    res.absorb(&get_catches_uses(&try_table.catches));
    res
}

/// The instruction belongs to the stack-switching proposal, whose
/// continuation types this library does not handle.
pub open spec fn is_stack_switching(instr: Operator) -> bool {
    match instr {
        Operator::ContNew { .. }
        | Operator::ContBind { .. }
        | Operator::Suspend { .. }
        | Operator::Resume { .. }
        | Operator::ResumeThrow { .. }
        | Operator::ResumeThrowRef { .. }
        | Operator::Switch { .. } => true,
        _ => false,
    }
}

/// What an instruction uses: the items that its operands name. An
/// instruction without such an operand uses nothing, and so do branch
/// depths, local indices, constants and lanes. The instructions of the
/// stack-switching proposal are not walked.
pub open spec fn instr_uses(instr: Operator) -> Set<Relocation> {
    match instr {
        Operator::Block { blockty }
        | Operator::Loop { blockty }
        | Operator::If { blockty }
        | Operator::Try { blockty } => blocktype_uses(blockty),
        Operator::Call { function_index }
        | Operator::RefFunc { function_index }
        | Operator::ReturnCall { function_index } => set![Relocation::Func(function_index)],
        Operator::CallIndirect { type_index, table_index }
        | Operator::ReturnCallIndirect { type_index, table_index } => {
            set![Relocation::Type(type_index), Relocation::Table(table_index)]
        },
        Operator::GlobalGet { global_index }
        | Operator::GlobalSet { global_index }
        | Operator::GlobalAtomicGet { global_index }
        | Operator::GlobalAtomicSet { global_index }
        | Operator::GlobalAtomicRmwAdd { global_index }
        | Operator::GlobalAtomicRmwSub { global_index }
        | Operator::GlobalAtomicRmwAnd { global_index }
        | Operator::GlobalAtomicRmwOr { global_index }
        | Operator::GlobalAtomicRmwXor { global_index }
        | Operator::GlobalAtomicRmwXchg { global_index }
        | Operator::GlobalAtomicRmwCmpxchg { global_index } => {
            set![Relocation::Global(global_index)]
        },
        Operator::I32Load { memarg }
        | Operator::I64Load { memarg }
        | Operator::F32Load { memarg }
        | Operator::F64Load { memarg }
        | Operator::I32Load8S { memarg }
        | Operator::I32Load8U { memarg }
        | Operator::I32Load16S { memarg }
        | Operator::I32Load16U { memarg }
        | Operator::I64Load8S { memarg }
        | Operator::I64Load8U { memarg }
        | Operator::I64Load16S { memarg }
        | Operator::I64Load16U { memarg }
        | Operator::I64Load32S { memarg }
        | Operator::I64Load32U { memarg }
        | Operator::I32Store { memarg }
        | Operator::I64Store { memarg }
        | Operator::F32Store { memarg }
        | Operator::F64Store { memarg }
        | Operator::I32Store8 { memarg }
        | Operator::I32Store16 { memarg }
        | Operator::I64Store8 { memarg }
        | Operator::I64Store16 { memarg }
        | Operator::I64Store32 { memarg }
        | Operator::MemoryAtomicNotify { memarg }
        | Operator::MemoryAtomicWait32 { memarg }
        | Operator::MemoryAtomicWait64 { memarg }
        | Operator::I32AtomicLoad { memarg }
        | Operator::I64AtomicLoad { memarg }
        | Operator::I32AtomicLoad8U { memarg }
        | Operator::I32AtomicLoad16U { memarg }
        | Operator::I64AtomicLoad8U { memarg }
        | Operator::I64AtomicLoad16U { memarg }
        | Operator::I64AtomicLoad32U { memarg }
        | Operator::I32AtomicStore { memarg }
        | Operator::I64AtomicStore { memarg }
        | Operator::I32AtomicStore8 { memarg }
        | Operator::I32AtomicStore16 { memarg }
        | Operator::I64AtomicStore8 { memarg }
        | Operator::I64AtomicStore16 { memarg }
        | Operator::I64AtomicStore32 { memarg }
        | Operator::I32AtomicRmwAdd { memarg }
        | Operator::I64AtomicRmwAdd { memarg }
        | Operator::I32AtomicRmw8AddU { memarg }
        | Operator::I32AtomicRmw16AddU { memarg }
        | Operator::I64AtomicRmw8AddU { memarg }
        | Operator::I64AtomicRmw16AddU { memarg }
        | Operator::I64AtomicRmw32AddU { memarg }
        | Operator::I32AtomicRmwSub { memarg }
        | Operator::I64AtomicRmwSub { memarg }
        | Operator::I32AtomicRmw8SubU { memarg }
        | Operator::I32AtomicRmw16SubU { memarg }
        | Operator::I64AtomicRmw8SubU { memarg }
        | Operator::I64AtomicRmw16SubU { memarg }
        | Operator::I64AtomicRmw32SubU { memarg }
        | Operator::I32AtomicRmwAnd { memarg }
        | Operator::I64AtomicRmwAnd { memarg }
        | Operator::I32AtomicRmw8AndU { memarg }
        | Operator::I32AtomicRmw16AndU { memarg }
        | Operator::I64AtomicRmw8AndU { memarg }
        | Operator::I64AtomicRmw16AndU { memarg }
        | Operator::I64AtomicRmw32AndU { memarg }
        | Operator::I32AtomicRmwOr { memarg }
        | Operator::I64AtomicRmwOr { memarg }
        | Operator::I32AtomicRmw8OrU { memarg }
        | Operator::I32AtomicRmw16OrU { memarg }
        | Operator::I64AtomicRmw8OrU { memarg }
        | Operator::I64AtomicRmw16OrU { memarg }
        | Operator::I64AtomicRmw32OrU { memarg }
        | Operator::I32AtomicRmwXor { memarg }
        | Operator::I64AtomicRmwXor { memarg }
        | Operator::I32AtomicRmw8XorU { memarg }
        | Operator::I32AtomicRmw16XorU { memarg }
        | Operator::I64AtomicRmw8XorU { memarg }
        | Operator::I64AtomicRmw16XorU { memarg }
        | Operator::I64AtomicRmw32XorU { memarg }
        | Operator::I32AtomicRmwXchg { memarg }
        | Operator::I64AtomicRmwXchg { memarg }
        | Operator::I32AtomicRmw8XchgU { memarg }
        | Operator::I32AtomicRmw16XchgU { memarg }
        | Operator::I64AtomicRmw8XchgU { memarg }
        | Operator::I64AtomicRmw16XchgU { memarg }
        | Operator::I64AtomicRmw32XchgU { memarg }
        | Operator::I32AtomicRmwCmpxchg { memarg }
        | Operator::I64AtomicRmwCmpxchg { memarg }
        | Operator::I32AtomicRmw8CmpxchgU { memarg }
        | Operator::I32AtomicRmw16CmpxchgU { memarg }
        | Operator::I64AtomicRmw8CmpxchgU { memarg }
        | Operator::I64AtomicRmw16CmpxchgU { memarg }
        | Operator::I64AtomicRmw32CmpxchgU { memarg }
        | Operator::V128Load { memarg }
        | Operator::V128Load8x8S { memarg }
        | Operator::V128Load8x8U { memarg }
        | Operator::V128Load16x4S { memarg }
        | Operator::V128Load16x4U { memarg }
        | Operator::V128Load32x2S { memarg }
        | Operator::V128Load32x2U { memarg }
        | Operator::V128Load8Splat { memarg }
        | Operator::V128Load16Splat { memarg }
        | Operator::V128Load32Splat { memarg }
        | Operator::V128Load64Splat { memarg }
        | Operator::V128Load32Zero { memarg }
        | Operator::V128Load64Zero { memarg }
        | Operator::V128Store { memarg }
        | Operator::V128Load8Lane { memarg }
        | Operator::V128Load16Lane { memarg }
        | Operator::V128Load32Lane { memarg }
        | Operator::V128Load64Lane { memarg }
        | Operator::V128Store8Lane { memarg }
        | Operator::V128Store16Lane { memarg }
        | Operator::V128Store32Lane { memarg }
        | Operator::V128Store64Lane { memarg } => memarg_uses(memarg),
        Operator::MemorySize { mem }
        | Operator::MemoryGrow { mem }
        | Operator::MemoryFill { mem }
        | Operator::MemoryDiscard { mem } => set![Relocation::Memory(mem)],
        Operator::StructNew { struct_type_index }
        | Operator::StructNewDefault { struct_type_index }
        | Operator::StructGet { struct_type_index }
        | Operator::StructGetS { struct_type_index }
        | Operator::StructGetU { struct_type_index }
        | Operator::StructSet { struct_type_index }
        | Operator::StructNewDesc { struct_type_index }
        | Operator::StructNewDefaultDesc { struct_type_index }
        | Operator::StructAtomicGet { struct_type_index }
        | Operator::StructAtomicGetS { struct_type_index }
        | Operator::StructAtomicGetU { struct_type_index }
        | Operator::StructAtomicSet { struct_type_index }
        | Operator::StructAtomicRmwAdd { struct_type_index }
        | Operator::StructAtomicRmwSub { struct_type_index }
        | Operator::StructAtomicRmwAnd { struct_type_index }
        | Operator::StructAtomicRmwOr { struct_type_index }
        | Operator::StructAtomicRmwXor { struct_type_index }
        | Operator::StructAtomicRmwXchg { struct_type_index }
        | Operator::StructAtomicRmwCmpxchg { struct_type_index } => {
            set![Relocation::Type(struct_type_index)]
        },
        Operator::ArrayNew { array_type_index }
        | Operator::ArrayNewDefault { array_type_index }
        | Operator::ArrayNewFixed { array_type_index }
        | Operator::ArrayGet { array_type_index }
        | Operator::ArrayGetS { array_type_index }
        | Operator::ArrayGetU { array_type_index }
        | Operator::ArraySet { array_type_index }
        | Operator::ArrayFill { array_type_index }
        | Operator::ArrayAtomicGet { array_type_index }
        | Operator::ArrayAtomicGetS { array_type_index }
        | Operator::ArrayAtomicGetU { array_type_index }
        | Operator::ArrayAtomicSet { array_type_index }
        | Operator::ArrayAtomicRmwAdd { array_type_index }
        | Operator::ArrayAtomicRmwSub { array_type_index }
        | Operator::ArrayAtomicRmwAnd { array_type_index }
        | Operator::ArrayAtomicRmwOr { array_type_index }
        | Operator::ArrayAtomicRmwXor { array_type_index }
        | Operator::ArrayAtomicRmwXchg { array_type_index }
        | Operator::ArrayAtomicRmwCmpxchg { array_type_index } => {
            set![Relocation::Type(array_type_index)]
        },
        Operator::ArrayNewData { array_type_index, array_data_index }
        | Operator::ArrayInitData { array_type_index, array_data_index } => {
            set![Relocation::Type(array_type_index), Relocation::Data(array_data_index)]
        },
        Operator::ArrayNewElem { array_type_index, array_elem_index }
        | Operator::ArrayInitElem { array_type_index, array_elem_index } => {
            set![Relocation::Type(array_type_index), Relocation::Elem(array_elem_index)]
        },
        Operator::ArrayCopy { array_type_index_dst, array_type_index_src } => {
            set![Relocation::Type(array_type_index_dst), Relocation::Type(array_type_index_src)]
        },
        Operator::RefTestNonNull { hty }
        | Operator::RefTestNullable { hty }
        | Operator::RefCastNonNull { hty }
        | Operator::RefCastNullable { hty }
        | Operator::RefCastDescEqNonNull { hty }
        | Operator::RefCastDescEqNullable { hty }
        | Operator::RefNull { hty } => heaptype_uses(hty),
        Operator::BrOnCast { from_ref_type, to_ref_type }
        | Operator::BrOnCastFail { from_ref_type, to_ref_type }
        | Operator::BrOnCastDescEq { from_ref_type, to_ref_type }
        | Operator::BrOnCastDescEqFail { from_ref_type, to_ref_type } => {
            reftype_uses(from_ref_type).union(reftype_uses(to_ref_type))
        },
        Operator::RefGetDesc { type_index }
        | Operator::CallRef { type_index }
        | Operator::ReturnCallRef { type_index } => set![Relocation::Type(type_index)],
        Operator::MemoryInit { data_index, mem } => {
            set![Relocation::Data(data_index), Relocation::Memory(mem)]
        },
        Operator::DataDrop { data_index } => set![Relocation::Data(data_index)],
        Operator::MemoryCopy { dst_mem, src_mem } => {
            set![Relocation::Memory(dst_mem), Relocation::Memory(src_mem)]
        },
        Operator::TableInit { elem_index, table } => {
            set![Relocation::Elem(elem_index), Relocation::Table(table)]
        },
        Operator::ElemDrop { elem_index } => set![Relocation::Elem(elem_index)],
        Operator::TableCopy { dst_table, src_table } => {
            set![Relocation::Table(dst_table), Relocation::Table(src_table)]
        },
        Operator::TypedSelect { ty } => valtype_uses(ty),
        Operator::TypedSelectMulti { tys } => valtypes_uses(tys@),
        Operator::TableFill { table }
        | Operator::TableGet { table }
        | Operator::TableSet { table }
        | Operator::TableGrow { table }
        | Operator::TableSize { table } => set![Relocation::Table(table)],
        Operator::TryTable { try_table } => trytable_uses(try_table),
        Operator::Throw { tag_index }
        | Operator::Catch { tag_index } => set![Relocation::Tag(tag_index)],
        Operator::TableAtomicGet { table_index }
        | Operator::TableAtomicSet { table_index }
        | Operator::TableAtomicRmwXchg { table_index }
        | Operator::TableAtomicRmwCmpxchg { table_index } => set![Relocation::Table(table_index)],
        _ => Set::empty(),
    }
}

/// Tells whether the instruction belongs to the stack-switching proposal.
pub fn stack_switching(instr: &Operator) -> (res: bool)
    ensures
        res == is_stack_switching(*instr),
{
    match instr {
        Operator::ContNew { .. }
        | Operator::ContBind { .. }
        | Operator::Suspend { .. }
        | Operator::Resume { .. }
        | Operator::ResumeThrow { .. }
        | Operator::ResumeThrowRef { .. }
        | Operator::Switch { .. } => true,
        _ => false,
    }
}

/// The items that an instruction references.
pub fn get_instr_uses(instr: &Operator) -> (res: Uses)
    ensures
        res.well_formed(),
        res@ == instr_uses(*instr),
{
    match instr {
        Operator::Block { blockty }
        | Operator::Loop { blockty }
        | Operator::If { blockty }
        | Operator::Try { blockty } => get_blocktype_uses(blockty),
        Operator::Call { function_index }
        | Operator::RefFunc { function_index }
        | Operator::ReturnCall { function_index } => Uses::single_func(*function_index),
        Operator::CallIndirect { type_index, table_index }
        | Operator::ReturnCallIndirect { type_index, table_index } => {
            Uses::pair(Relocation::Type(*type_index), Relocation::Table(*table_index))
        },
        Operator::GlobalGet { global_index }
        | Operator::GlobalSet { global_index }
        | Operator::GlobalAtomicGet { global_index }
        | Operator::GlobalAtomicSet { global_index }
        | Operator::GlobalAtomicRmwAdd { global_index }
        | Operator::GlobalAtomicRmwSub { global_index }
        | Operator::GlobalAtomicRmwAnd { global_index }
        | Operator::GlobalAtomicRmwOr { global_index }
        | Operator::GlobalAtomicRmwXor { global_index }
        | Operator::GlobalAtomicRmwXchg { global_index }
        | Operator::GlobalAtomicRmwCmpxchg { global_index } => Uses::single_global(*global_index),
        Operator::I32Load { memarg }
        | Operator::I64Load { memarg }
        | Operator::F32Load { memarg }
        | Operator::F64Load { memarg }
        | Operator::I32Load8S { memarg }
        | Operator::I32Load8U { memarg }
        | Operator::I32Load16S { memarg }
        | Operator::I32Load16U { memarg }
        | Operator::I64Load8S { memarg }
        | Operator::I64Load8U { memarg }
        | Operator::I64Load16S { memarg }
        | Operator::I64Load16U { memarg }
        | Operator::I64Load32S { memarg }
        | Operator::I64Load32U { memarg }
        | Operator::I32Store { memarg }
        | Operator::I64Store { memarg }
        | Operator::F32Store { memarg }
        | Operator::F64Store { memarg }
        | Operator::I32Store8 { memarg }
        | Operator::I32Store16 { memarg }
        | Operator::I64Store8 { memarg }
        | Operator::I64Store16 { memarg }
        | Operator::I64Store32 { memarg }
        | Operator::MemoryAtomicNotify { memarg }
        | Operator::MemoryAtomicWait32 { memarg }
        | Operator::MemoryAtomicWait64 { memarg }
        | Operator::I32AtomicLoad { memarg }
        | Operator::I64AtomicLoad { memarg }
        | Operator::I32AtomicLoad8U { memarg }
        | Operator::I32AtomicLoad16U { memarg }
        | Operator::I64AtomicLoad8U { memarg }
        | Operator::I64AtomicLoad16U { memarg }
        | Operator::I64AtomicLoad32U { memarg }
        | Operator::I32AtomicStore { memarg }
        | Operator::I64AtomicStore { memarg }
        | Operator::I32AtomicStore8 { memarg }
        | Operator::I32AtomicStore16 { memarg }
        | Operator::I64AtomicStore8 { memarg }
        | Operator::I64AtomicStore16 { memarg }
        | Operator::I64AtomicStore32 { memarg }
        | Operator::I32AtomicRmwAdd { memarg }
        | Operator::I64AtomicRmwAdd { memarg }
        | Operator::I32AtomicRmw8AddU { memarg }
        | Operator::I32AtomicRmw16AddU { memarg }
        | Operator::I64AtomicRmw8AddU { memarg }
        | Operator::I64AtomicRmw16AddU { memarg }
        | Operator::I64AtomicRmw32AddU { memarg }
        | Operator::I32AtomicRmwSub { memarg }
        | Operator::I64AtomicRmwSub { memarg }
        | Operator::I32AtomicRmw8SubU { memarg }
        | Operator::I32AtomicRmw16SubU { memarg }
        | Operator::I64AtomicRmw8SubU { memarg }
        | Operator::I64AtomicRmw16SubU { memarg }
        | Operator::I64AtomicRmw32SubU { memarg }
        | Operator::I32AtomicRmwAnd { memarg }
        | Operator::I64AtomicRmwAnd { memarg }
        | Operator::I32AtomicRmw8AndU { memarg }
        | Operator::I32AtomicRmw16AndU { memarg }
        | Operator::I64AtomicRmw8AndU { memarg }
        | Operator::I64AtomicRmw16AndU { memarg }
        | Operator::I64AtomicRmw32AndU { memarg }
        | Operator::I32AtomicRmwOr { memarg }
        | Operator::I64AtomicRmwOr { memarg }
        | Operator::I32AtomicRmw8OrU { memarg }
        | Operator::I32AtomicRmw16OrU { memarg }
        | Operator::I64AtomicRmw8OrU { memarg }
        | Operator::I64AtomicRmw16OrU { memarg }
        | Operator::I64AtomicRmw32OrU { memarg }
        | Operator::I32AtomicRmwXor { memarg }
        | Operator::I64AtomicRmwXor { memarg }
        | Operator::I32AtomicRmw8XorU { memarg }
        | Operator::I32AtomicRmw16XorU { memarg }
        | Operator::I64AtomicRmw8XorU { memarg }
        | Operator::I64AtomicRmw16XorU { memarg }
        | Operator::I64AtomicRmw32XorU { memarg }
        | Operator::I32AtomicRmwXchg { memarg }
        | Operator::I64AtomicRmwXchg { memarg }
        | Operator::I32AtomicRmw8XchgU { memarg }
        | Operator::I32AtomicRmw16XchgU { memarg }
        | Operator::I64AtomicRmw8XchgU { memarg }
        | Operator::I64AtomicRmw16XchgU { memarg }
        | Operator::I64AtomicRmw32XchgU { memarg }
        | Operator::I32AtomicRmwCmpxchg { memarg }
        | Operator::I64AtomicRmwCmpxchg { memarg }
        | Operator::I32AtomicRmw8CmpxchgU { memarg }
        | Operator::I32AtomicRmw16CmpxchgU { memarg }
        | Operator::I64AtomicRmw8CmpxchgU { memarg }
        | Operator::I64AtomicRmw16CmpxchgU { memarg }
        | Operator::I64AtomicRmw32CmpxchgU { memarg }
        | Operator::V128Load { memarg }
        | Operator::V128Load8x8S { memarg }
        | Operator::V128Load8x8U { memarg }
        | Operator::V128Load16x4S { memarg }
        | Operator::V128Load16x4U { memarg }
        | Operator::V128Load32x2S { memarg }
        | Operator::V128Load32x2U { memarg }
        | Operator::V128Load8Splat { memarg }
        | Operator::V128Load16Splat { memarg }
        | Operator::V128Load32Splat { memarg }
        | Operator::V128Load64Splat { memarg }
        | Operator::V128Load32Zero { memarg }
        | Operator::V128Load64Zero { memarg }
        | Operator::V128Store { memarg }
        | Operator::V128Load8Lane { memarg }
        | Operator::V128Load16Lane { memarg }
        | Operator::V128Load32Lane { memarg }
        | Operator::V128Load64Lane { memarg }
        | Operator::V128Store8Lane { memarg }
        | Operator::V128Store16Lane { memarg }
        | Operator::V128Store32Lane { memarg }
        | Operator::V128Store64Lane { memarg } => get_memarg_uses(memarg),
        Operator::MemorySize { mem }
        | Operator::MemoryGrow { mem }
        | Operator::MemoryFill { mem }
        | Operator::MemoryDiscard { mem } => Uses::single_memory(*mem),
        Operator::StructNew { struct_type_index }
        | Operator::StructNewDefault { struct_type_index }
        | Operator::StructGet { struct_type_index }
        | Operator::StructGetS { struct_type_index }
        | Operator::StructGetU { struct_type_index }
        | Operator::StructSet { struct_type_index }
        | Operator::StructNewDesc { struct_type_index }
        | Operator::StructNewDefaultDesc { struct_type_index }
        | Operator::StructAtomicGet { struct_type_index }
        | Operator::StructAtomicGetS { struct_type_index }
        | Operator::StructAtomicGetU { struct_type_index }
        | Operator::StructAtomicSet { struct_type_index }
        | Operator::StructAtomicRmwAdd { struct_type_index }
        | Operator::StructAtomicRmwSub { struct_type_index }
        | Operator::StructAtomicRmwAnd { struct_type_index }
        | Operator::StructAtomicRmwOr { struct_type_index }
        | Operator::StructAtomicRmwXor { struct_type_index }
        | Operator::StructAtomicRmwXchg { struct_type_index }
        | Operator::StructAtomicRmwCmpxchg { struct_type_index } => {
            Uses::single_type(*struct_type_index)
        },
        Operator::ArrayNew { array_type_index }
        | Operator::ArrayNewDefault { array_type_index }
        | Operator::ArrayNewFixed { array_type_index }
        | Operator::ArrayGet { array_type_index }
        | Operator::ArrayGetS { array_type_index }
        | Operator::ArrayGetU { array_type_index }
        | Operator::ArraySet { array_type_index }
        | Operator::ArrayFill { array_type_index }
        | Operator::ArrayAtomicGet { array_type_index }
        | Operator::ArrayAtomicGetS { array_type_index }
        | Operator::ArrayAtomicGetU { array_type_index }
        | Operator::ArrayAtomicSet { array_type_index }
        | Operator::ArrayAtomicRmwAdd { array_type_index }
        | Operator::ArrayAtomicRmwSub { array_type_index }
        | Operator::ArrayAtomicRmwAnd { array_type_index }
        | Operator::ArrayAtomicRmwOr { array_type_index }
        | Operator::ArrayAtomicRmwXor { array_type_index }
        | Operator::ArrayAtomicRmwXchg { array_type_index }
        | Operator::ArrayAtomicRmwCmpxchg { array_type_index } => {
            Uses::single_type(*array_type_index)
        },
        Operator::ArrayNewData { array_type_index, array_data_index }
        | Operator::ArrayInitData { array_type_index, array_data_index } => {
            Uses::pair(Relocation::Type(*array_type_index), Relocation::Data(*array_data_index))
        },
        Operator::ArrayNewElem { array_type_index, array_elem_index }
        | Operator::ArrayInitElem { array_type_index, array_elem_index } => {
            Uses::pair(Relocation::Type(*array_type_index), Relocation::Elem(*array_elem_index))
        },
        Operator::ArrayCopy { array_type_index_dst, array_type_index_src } => {
            Uses::pair(
                Relocation::Type(*array_type_index_dst),
                Relocation::Type(*array_type_index_src),
            )
        },
        Operator::RefTestNonNull { hty }
        | Operator::RefTestNullable { hty }
        | Operator::RefCastNonNull { hty }
        | Operator::RefCastNullable { hty }
        | Operator::RefCastDescEqNonNull { hty }
        | Operator::RefCastDescEqNullable { hty }
        | Operator::RefNull { hty } => get_heaptype_uses(hty),
        Operator::BrOnCast { from_ref_type, to_ref_type }
        | Operator::BrOnCastFail { from_ref_type, to_ref_type }
        | Operator::BrOnCastDescEq { from_ref_type, to_ref_type }
        | Operator::BrOnCastDescEqFail { from_ref_type, to_ref_type } => {
            Uses::all(vec![get_reftype_uses(from_ref_type), get_reftype_uses(to_ref_type)])
        },
        Operator::RefGetDesc { type_index }
        | Operator::CallRef { type_index }
        | Operator::ReturnCallRef { type_index } => Uses::single_type(*type_index),
        Operator::MemoryInit { data_index, mem } => {
            Uses::pair(Relocation::Data(*data_index), Relocation::Memory(*mem))
        },
        Operator::DataDrop { data_index } => Uses::single_data(*data_index),
        Operator::MemoryCopy { dst_mem, src_mem } => {
            Uses::pair(Relocation::Memory(*dst_mem), Relocation::Memory(*src_mem))
        },
        Operator::TableInit { elem_index, table } => {
            Uses::pair(Relocation::Elem(*elem_index), Relocation::Table(*table))
        },
        Operator::ElemDrop { elem_index } => Uses::single_elem(*elem_index),
        Operator::TableCopy { dst_table, src_table } => {
            Uses::pair(Relocation::Table(*dst_table), Relocation::Table(*src_table))
        },
        Operator::TypedSelect { ty } => get_valtype_uses(ty),
        Operator::TypedSelectMulti { tys } => get_valtypes_uses(tys),
        Operator::TableFill { table }
        | Operator::TableGet { table }
        | Operator::TableSet { table }
        | Operator::TableGrow { table }
        | Operator::TableSize { table } => Uses::single_table(*table),
        Operator::TryTable { try_table } => get_trytable_uses(try_table),
        Operator::Throw { tag_index }
        | Operator::Catch { tag_index } => Uses::single_tag(*tag_index),
        Operator::TableAtomicGet { table_index }
        | Operator::TableAtomicSet { table_index }
        | Operator::TableAtomicRmwXchg { table_index }
        | Operator::TableAtomicRmwCmpxchg { table_index } => Uses::single_table(*table_index),
        _ => Uses::default(),
    }
}

} // verus!
