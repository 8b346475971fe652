//! Whether the lists of a module fit together and every index in it names
//! an item that the module has.

use crate::module::{Export, ExternalKind, Import, Module, TypeRef};
use crate::relocation::{Error, ErrorKind, Relocation};
use crate::types::RecGroup;
use crate::uses::Uses;
use vstd::prelude::*;

verus! {

/// The index space that an import adds an item to, as the first item of
/// that space.
pub open spec fn import_space(ty: TypeRef) -> Relocation {
    match ty {
        TypeRef::Func(_) => Relocation::Func(0),
        TypeRef::FuncExact(_) => Relocation::Func(0),
        TypeRef::Table(_) => Relocation::Table(0),
        TypeRef::Memory(_) => Relocation::Memory(0),
        TypeRef::Global(_) => Relocation::Global(0),
        TypeRef::Tag(_) => Relocation::Tag(0),
    }
}

/// The number of imports that add an item to the index space of `space`.
pub open spec fn count_imports(imports: Seq<Import>, space: Relocation) -> nat
    decreases imports.len(),
{
    if imports.len() == 0 {
        0
    } else {
        count_imports(imports.drop_last(), space) + if import_space(imports.last().ty) == space {
            1nat
        } else {
            0nat
        }
    }
}

/// The item that the import at position `k` brings in: in its index space
/// it has as many items before it as imports of that space precede it.
pub open spec fn import_item(imports: Seq<Import>, k: int) -> Relocation
    recommends
        0 <= k < imports.len(),
{
    import_space(imports[k].ty).with_index(
        count_imports(imports.subrange(0, k), import_space(imports[k].ty)) as u32,
    )
}

/// The item that an export names.
pub open spec fn export_item(export: Export) -> Relocation {
    match export.kind {
        ExternalKind::Func => Relocation::Func(export.index),
        ExternalKind::FuncExact => Relocation::Func(export.index),
        ExternalKind::Table => Relocation::Table(export.index),
        ExternalKind::Memory => Relocation::Memory(export.index),
        ExternalKind::Global => Relocation::Global(export.index),
        ExternalKind::Tag => Relocation::Tag(export.index),
    }
}

/// The number of types in the groups together.
pub open spec fn group_total(groups: Seq<RecGroup>) -> nat
    decreases groups.len(),
{
    if groups.len() == 0 {
        0
    } else {
        group_total(groups.drop_last()) + groups.last().len as nat
    }
}

impl Module {
    /// Everything that the item references is an item of the module.
    pub open spec fn uses_in_range(&self, item: Relocation) -> bool {
        forall|y: Relocation| #[trigger] self.item_uses(item).contains(y) ==> self.has(y)
    }

    /// The recursive groups make up the types, and a group that is not
    /// marked as recursive holds one type.
    pub open spec fn groups_fit(&self) -> bool {
        &&& group_total(self.rec_groups@) == self.types@.len()
        &&& forall|g: int|
            0 <= g < self.rec_groups@.len() && !(#[trigger] self.rec_groups@[g]).explicit
                ==> self.rec_groups@[g].len == 1
    }

    /// The import section brings in as many items of each index space as
    /// the module counts as imported.
    pub open spec fn imports_fit(&self) -> bool {
        &&& self.imports@.len() <= u32::MAX
        &&& count_imports(self.imports@, Relocation::Func(0)) == self.num_imported_functions
        &&& count_imports(self.imports@, Relocation::Table(0)) == self.num_imported_tables
        &&& count_imports(self.imports@, Relocation::Memory(0)) == self.num_imported_memories
        &&& count_imports(self.imports@, Relocation::Global(0)) == self.num_imported_globals
        &&& count_imports(self.imports@, Relocation::Tag(0)) == self.num_imported_tags
    }

    /// Each body has the type that the function section gives its
    /// function.
    pub open spec fn bodies_fit(&self) -> bool {
        forall|i: int|
            0 <= i < self.defined_funcs@.len() ==> (#[trigger] self.defined_funcs@[i]).type_idx
                == self.func_types@[self.num_imported_functions + i]
    }

    /// Each export names an item of the module, and so does the start
    /// function, if there is one.
    pub open spec fn exports_in_range(&self) -> bool {
        &&& forall|k: int|
            0 <= k < self.exports@.len() ==> self.has(export_item(#[trigger] self.exports@[k]))
        &&& self.start_idx matches Some(func) ==> self.has(Relocation::Func(func))
    }

    /// The module can be isolated: its lists fit together, and every index
    /// in it names an item that it has.
    pub open spec fn well_formed(&self) -> bool {
        &&& self.counts_consistent()
        &&& self.groups_fit()
        &&& self.imports_fit()
        &&& self.bodies_fit()
        &&& self.refs_in_range()
        &&& self.exports_in_range()
    }

    /// Tells whether every item of the set is an item of the module.
    pub fn holds_all(&self, uses: &Uses) -> (res: bool)
        requires
            uses.well_formed(),
        ensures
            res == forall|y: Relocation| #[trigger] uses@.contains(y) ==> self.has(y),
    {
        let res = below(&uses.live_types, self.types.len()) && below(
            &uses.live_funcs,
            self.func_types.len(),
        ) && below(&uses.live_tables, self.table_types.len()) && below(
            &uses.live_globals,
            self.global_types.len(),
        ) && below(&uses.live_memories, self.memory_types.len()) && below(
            &uses.live_datas,
            self.datas.len(),
        ) && below(&uses.live_elems, self.elems.len()) && below(
            &uses.live_tags,
            self.tag_types.len(),
        );
        proof {
            if res {
                assert forall|y: Relocation| #[trigger] uses@.contains(y) implies self.has(y) by {
                    assert(uses.space(y).contains(y.spec_index()));
                }
            } else {
                let list = if !below_spec(uses.live_types@, self.types@.len()) {
                    uses.live_types@
                } else if !below_spec(uses.live_funcs@, self.func_types@.len()) {
                    uses.live_funcs@
                } else if !below_spec(uses.live_tables@, self.table_types@.len()) {
                    uses.live_tables@
                } else if !below_spec(uses.live_globals@, self.global_types@.len()) {
                    uses.live_globals@
                } else if !below_spec(uses.live_memories@, self.memory_types@.len()) {
                    uses.live_memories@
                } else if !below_spec(uses.live_datas@, self.datas@.len()) {
                    uses.live_datas@
                } else if !below_spec(uses.live_elems@, self.elems@.len()) {
                    uses.live_elems@
                } else {
                    uses.live_tags@
                };
                let space = if !below_spec(uses.live_types@, self.types@.len()) {
                    Relocation::Type(0)
                } else if !below_spec(uses.live_funcs@, self.func_types@.len()) {
                    Relocation::Func(0)
                } else if !below_spec(uses.live_tables@, self.table_types@.len()) {
                    Relocation::Table(0)
                } else if !below_spec(uses.live_globals@, self.global_types@.len()) {
                    Relocation::Global(0)
                } else if !below_spec(uses.live_memories@, self.memory_types@.len()) {
                    Relocation::Memory(0)
                } else if !below_spec(uses.live_datas@, self.datas@.len()) {
                    Relocation::Data(0)
                } else if !below_spec(uses.live_elems@, self.elems@.len()) {
                    Relocation::Elem(0)
                } else {
                    Relocation::Tag(0)
                };
                assert(list == uses.space(space));
                let k = choose|k: int| 0 <= k < list.len() && list[k] >= self.space_len(space);
                let y = space.with_index(list[k]);
                assert(uses.space(y).contains(list[k]));
                assert(uses@.contains(y));
                assert(!self.has(y));
            }
        }
        res
    }
}

/// Every index of the list is below the bound.
pub open spec fn below_spec(list: Seq<u32>, bound: nat) -> bool {
    forall|k: int| 0 <= k < list.len() ==> list[k] < bound
}

/// Tells whether every index of a strictly ascending list is below the
/// bound.
pub fn below(list: &Vec<u32>, bound: usize) -> (res: bool)
    requires
        crate::sorted::strictly_ascending(list@),
    ensures
        res == below_spec(list@, bound as nat),
{
    if list.len() == 0 {
        return true;
    }
    let last = list[list.len() - 1];
    proof {
        if (last as usize) < bound {
            assert forall|k: int| 0 <= k < list@.len() implies list@[k] < bound by {
                if k < list@.len() - 1 {
                    assert(list@[k] < list@[list@.len() - 1]);
                }
            }
        }
    }
    (last as usize) < bound
}

/// The first groups of a list hold no more types than all of them.
pub proof fn lemma_group_total_prefix(groups: Seq<RecGroup>, k: int)
    requires
        0 <= k <= groups.len(),
    ensures
        group_total(groups.subrange(0, k)) <= group_total(groups),
    decreases groups.len() - k,
{
    if k < groups.len() {
        lemma_group_total_prefix(groups, k + 1);
        assert(groups.subrange(0, k + 1).drop_last() =~= groups.subrange(0, k));
    } else {
        assert(groups.subrange(0, k) =~= groups);
    }
}

/// Tells whether the import adds an item to the index space of `space`.
fn imports_into(ty: &TypeRef, space: Relocation) -> (res: bool)
    ensures
        res == (import_space(*ty) == space),
{
    match (ty, space) {
        (TypeRef::Func(_), Relocation::Func(i)) => i == 0,
        (TypeRef::FuncExact(_), Relocation::Func(i)) => i == 0,
        (TypeRef::Table(_), Relocation::Table(i)) => i == 0,
        (TypeRef::Memory(_), Relocation::Memory(i)) => i == 0,
        (TypeRef::Global(_), Relocation::Global(i)) => i == 0,
        (TypeRef::Tag(_), Relocation::Tag(i)) => i == 0,
        _ => false,
    }
}

/// The number of imports that add an item to the index space of `space`.
pub fn imports_of(imports: &Vec<Import>, space: Relocation) -> (res: usize)
    ensures
        res == count_imports(imports@, space),
        res <= imports@.len(),
{
    let mut count: usize = 0;
    let mut k: usize = 0;
    while k < imports.len()
        invariant
            0 <= k <= imports.len(),
            count <= k,
            count == count_imports(imports@.subrange(0, k as int), space),
        decreases imports.len() - k,
    {
        proof {
            assert(imports@.subrange(0, k + 1).drop_last() =~= imports@.subrange(0, k as int));
        }
        if imports_into(&imports[k].ty, space) {
            count += 1;
        }
        k += 1;
    }
    proof {
        assert(imports@.subrange(0, imports.len() as int) =~= imports@);
    }
    count
}

/// The item that an export names.
pub fn exported_item(export: &Export) -> (res: Relocation)
    ensures
        res == export_item(*export),
{
    match export.kind {
        ExternalKind::Func => Relocation::Func(export.index),
        ExternalKind::FuncExact => Relocation::Func(export.index),
        ExternalKind::Table => Relocation::Table(export.index),
        ExternalKind::Memory => Relocation::Memory(export.index),
        ExternalKind::Global => Relocation::Global(export.index),
        ExternalKind::Tag => Relocation::Tag(export.index),
    }
}

impl Module {
    /// The number of items in the index space that `space` belongs to.
    pub fn space_size(&self, space: Relocation) -> (res: usize)
        ensures
            res == self.space_len(space),
    {
        match space {
            Relocation::Type(_) => self.types.len(),
            Relocation::Func(_) => self.func_types.len(),
            Relocation::Table(_) => self.table_types.len(),
            Relocation::Global(_) => self.global_types.len(),
            Relocation::Memory(_) => self.memory_types.len(),
            Relocation::Data(_) => self.datas.len(),
            Relocation::Elem(_) => self.elems.len(),
            Relocation::Tag(_) => self.tag_types.len(),
        }
    }

    /// Tells whether the lists of the module fit together.
    pub fn check_counts(&self) -> (res: bool)
        ensures
            res == self.counts_consistent(),
    {
        let limit: usize = 0xffff_ffff;
        let funcs: usize = self.num_imported_functions as usize;
        let tables: usize = self.num_imported_tables as usize;
        let globals: usize = self.num_imported_globals as usize;
        self.types.len() <= limit && self.func_types.len() <= limit && self.table_types.len()
            <= limit && self.global_types.len() <= limit && self.memory_types.len() <= limit
            && self.tag_types.len() <= limit && self.datas.len() <= limit && self.elems.len()
            <= limit && funcs <= self.func_types.len() && self.func_types.len() - funcs
            == self.defined_funcs.len() && tables <= self.table_types.len()
            && self.table_types.len() - tables == self.defined_tables.len() && globals
            <= self.global_types.len() && self.global_types.len() - globals
            == self.defined_globals.len() && self.num_imported_memories as usize
            <= self.memory_types.len() && self.num_imported_tags as usize <= self.tag_types.len()
    }

    /// Tells whether the recursive groups make up the types.
    pub fn check_groups(&self) -> (res: bool)
        requires
            self.types@.len() <= u32::MAX,
        ensures
            res == self.groups_fit(),
    {
        let mut total: usize = 0;
        let mut g: usize = 0;
        while g < self.rec_groups.len()
            invariant
                0 <= g <= self.rec_groups.len(),
                self.types@.len() <= u32::MAX,
                total == group_total(self.rec_groups@.subrange(0, g as int)),
                total <= self.types@.len(),
                forall|i: int|
                    0 <= i < g && !(#[trigger] self.rec_groups@[i]).explicit
                        ==> self.rec_groups@[i].len == 1,
            decreases self.rec_groups.len() - g,
        {
            let group = self.rec_groups[g];
            proof {
                assert(self.rec_groups@.subrange(0, g + 1).drop_last()
                    =~= self.rec_groups@.subrange(0, g as int));
                lemma_group_total_prefix(self.rec_groups@, g + 1);
            }
            if !group.explicit && group.len != 1 {
                return false;
            }
            if group.len as usize > self.types.len() - total {
                return false;
            }
            total += group.len as usize;
            g += 1;
        }
        proof {
            assert(self.rec_groups@.subrange(0, self.rec_groups.len() as int)
                =~= self.rec_groups@);
        }
        total == self.types.len()
    }

    /// Tells whether the import section brings in as many items of each
    /// index space as the module counts as imported.
    pub fn check_imports(&self) -> (res: bool)
        ensures
            res == self.imports_fit(),
    {
        self.imports.len() <= 0xffff_ffff && imports_of(&self.imports, Relocation::Func(0))
            == self.num_imported_functions as usize
            && imports_of(&self.imports, Relocation::Table(0)) == self.num_imported_tables as usize
            && imports_of(&self.imports, Relocation::Memory(0))
            == self.num_imported_memories as usize && imports_of(
            &self.imports,
            Relocation::Global(0),
        ) == self.num_imported_globals as usize && imports_of(&self.imports, Relocation::Tag(0))
            == self.num_imported_tags as usize
    }

    /// Tells whether each body has the type that the function section
    /// gives its function.
    pub fn check_bodies(&self) -> (res: bool)
        requires
            self.counts_consistent(),
        ensures
            res == self.bodies_fit(),
    {
        let first: usize = self.num_imported_functions as usize;
        let mut i: usize = 0;
        while i < self.defined_funcs.len()
            invariant
                0 <= i <= self.defined_funcs.len(),
                self.counts_consistent(),
                first == self.num_imported_functions,
                forall|k: int|
                    0 <= k < i ==> (#[trigger] self.defined_funcs@[k]).type_idx
                        == self.func_types@[self.num_imported_functions + k],
            decreases self.defined_funcs.len() - i,
        {
            if self.defined_funcs[i].type_idx != self.func_types[first + i] {
                return false;
            }
            i += 1;
        }
        true
    }

    /// Tells whether each export and the start function name an item of
    /// the module.
    pub fn check_exports(&self) -> (res: bool)
        ensures
            res == self.exports_in_range(),
    {
        let mut k: usize = 0;
        while k < self.exports.len()
            invariant
                0 <= k <= self.exports.len(),
                forall|i: int|
                    0 <= i < k ==> self.has(export_item(#[trigger] self.exports@[i])),
            decreases self.exports.len() - k,
        {
            if !self.has_item(exported_item(&self.exports[k])) {
                return false;
            }
            k += 1;
        }
        match self.start_idx {
            Some(func) => self.has_item(Relocation::Func(func)),
            None => true,
        }
    }

    /// Tells whether everything that the items of one index space
    /// reference is an item of the module.
    pub fn check_space(&self, space: Relocation) -> (res: bool)
        requires
            self.counts_consistent(),
        ensures
            res == forall|i: u32|
                self.has(#[trigger] space.with_index(i)) ==> self.uses_in_range(
                    space.with_index(i),
                ),
    {
        let n = self.space_size(space);
        let mut k: usize = 0;
        while k < n
            invariant
                0 <= k <= n,
                n == self.space_len(space),
                n <= u32::MAX,
                self.counts_consistent(),
                forall|i: u32| i < k ==> self.uses_in_range(#[trigger] space.with_index(i)),
            decreases n - k,
        {
            let item = space.at(k as u32);
            assert(self.space_len(item) == self.space_len(space));
            let uses = self.get_item_uses(item);
            if !self.holds_all(&uses) {
                assert(self.has(space.with_index(k as u32)));
                return false;
            }
            k += 1;
        }
        proof {
            assert forall|i: u32|
                self.has(#[trigger] space.with_index(i)) implies self.uses_in_range(
                space.with_index(i),
            ) by {
                assert(self.space_len(space.with_index(i)) == self.space_len(space));
                assert(space.with_index(i).spec_index() == i);
            }
        }
        true
    }

    /// Tells whether every item that an item of the module references is
    /// an item of the module.
    pub fn check_refs(&self) -> (res: bool)
        requires
            self.counts_consistent(),
        ensures
            res == self.refs_in_range(),
    {
        let res = self.check_space(Relocation::Type(0)) && self.check_space(Relocation::Func(0))
            && self.check_space(Relocation::Table(0)) && self.check_space(Relocation::Global(0))
            && self.check_space(Relocation::Memory(0)) && self.check_space(Relocation::Data(0))
            && self.check_space(Relocation::Elem(0)) && self.check_space(Relocation::Tag(0));
        proof {
            if res {
                assert forall|x: Relocation, y: Relocation|
                    self.has(x) && #[trigger] self.item_uses(x).contains(y) implies self.has(
                    y,
                ) by {
                    match x {
                        Relocation::Type(i) => {
                            assert(x == Relocation::Type(0).with_index(i));
                        },
                        Relocation::Func(i) => {
                            assert(x == Relocation::Func(0).with_index(i));
                        },
                        Relocation::Table(i) => {
                            assert(x == Relocation::Table(0).with_index(i));
                        },
                        Relocation::Global(i) => {
                            assert(x == Relocation::Global(0).with_index(i));
                        },
                        Relocation::Memory(i) => {
                            assert(x == Relocation::Memory(0).with_index(i));
                        },
                        Relocation::Data(i) => {
                            assert(x == Relocation::Data(0).with_index(i));
                        },
                        Relocation::Elem(i) => {
                            assert(x == Relocation::Elem(0).with_index(i));
                        },
                        Relocation::Tag(i) => {
                            assert(x == Relocation::Tag(0).with_index(i));
                        },
                    }
                    assert(self.uses_in_range(x));
                }
            }
        }
        res
    }

    /// Checks that the module can be isolated: that its lists fit together
    /// and that every index in it names an item that it has.
    pub fn check(&self) -> (res: Result<(), Error>)
        ensures
            res is Ok <==> self.well_formed(),
            res matches Err(e) ==> e.kind == ErrorKind::Parse && e.item is None,
    {
        if self.check_counts() && self.check_groups() && self.check_imports()
            && self.check_bodies() && self.check_refs() && self.check_exports() {
            Ok(())
        } else {
            Err(Error { kind: ErrorKind::Parse, item: None })
        }
    }
}

} // verus!
