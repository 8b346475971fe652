//! A parsed module: one list per index space, and the order of its
//! sections.

use crate::operators::Operator;
use crate::relocation::Relocation;
use crate::sorted::sort_dedup;
use crate::types::{
    CompositeInnerType, GlobalType, MemoryType, RecGroup, RefType, SubType, TableType, TagType,
    ValType,
};
use crate::uses::{
    functype_uses, get_functype_uses, get_globaltype_uses, get_instr_uses, get_reftype_uses,
    get_tabletype_uses, get_tagtype_uses, get_type_uses, get_valtype_uses, globaltype_uses,
    instr_uses, reftype_uses, tabletype_uses, tagtype_uses, type_uses, valtype_uses, Uses,
};
use vstd::prelude::*;

verus! {

/// A constant expression: a short sequence of instructions.
#[derive(Clone, Debug, PartialEq, Eq)]
pub struct ConstExpr {
    pub ops: Vec<Operator>,
}

/// What an import brings in.
#[derive(Clone, Copy, Debug, PartialEq, Eq, Structural)]
pub enum TypeRef {
    Func(u32),
    Table(TableType),
    Memory(MemoryType),
    Global(GlobalType),
    Tag(TagType),
    FuncExact(u32),
}

/// One entry of the import section.
#[derive(Clone, Debug, PartialEq, Eq)]
pub struct Import {
    pub module: String,
    pub name: String,
    pub ty: TypeRef,
}

/// How a defined table is initialised.
#[derive(Clone, Debug, PartialEq, Eq)]
pub enum TableInit {
    RefNull,
    Expr(ConstExpr),
}

/// A table that the module defines.
#[derive(Clone, Debug, PartialEq, Eq)]
pub struct Table {
    pub ty: TableType,
    pub init: TableInit,
}

/// A global that the module defines.
#[derive(Clone, Debug, PartialEq, Eq)]
pub struct Global {
    pub ty: GlobalType,
    pub init_expr: ConstExpr,
}

/// The body of a function that the module defines. Each entry of `locals`
/// declares a run of locals of one type.
#[derive(Clone, Debug, PartialEq, Eq)]
pub struct Func {
    pub type_idx: u32,
    pub locals: Vec<(u32, ValType)>,
    pub instructions: Vec<Operator>,
}

/// The mode of an element segment. An active segment without a table index
/// initialises table 0.
#[derive(Clone, Debug, PartialEq, Eq)]
pub enum ElementKind {
    Passive,
    Active { table_index: Option<u32>, offset_expr: ConstExpr },
    Declared,
}

/// The payload of an element segment.
#[derive(Clone, Debug, PartialEq, Eq)]
pub enum ElementItems {
    Functions(Vec<u32>),
    Expressions(RefType, Vec<ConstExpr>),
}

/// An element segment.
#[derive(Clone, Debug, PartialEq, Eq)]
pub struct Element {
    pub kind: ElementKind,
    pub items: ElementItems,
}

/// The mode of a data segment.
#[derive(Clone, Debug, PartialEq, Eq)]
pub enum DataKind {
    Passive,
    Active { memory_index: u32, offset_expr: ConstExpr },
}

/// A data segment. Its bytes are copied as they are and stay with the
/// caller.
#[derive(Clone, Debug, PartialEq, Eq)]
pub struct Data {
    pub kind: DataKind,
}

/// The index space that an export names.
#[derive(Clone, Copy, Debug, PartialEq, Eq, Structural)]
pub enum ExternalKind {
    Func,
    Table,
    Memory,
    Global,
    Tag,
    FuncExact,
}

/// One entry of the export section.
#[derive(Clone, Debug, PartialEq, Eq)]
pub struct Export {
    pub name: String,
    pub kind: ExternalKind,
    pub index: u32,
}

/// A section as it appeared in the input. A section that is not one of the
/// known kinds is kept as its raw bytes.
#[derive(Clone, Debug, PartialEq, Eq)]
pub enum Section {
    Passthrough { id: u8, data: Vec<u8> },
    Type,
    Import,
    Function,
    Table,
    Memory,
    Global,
    Export,
    Start,
    Element,
    Code,
    Data,
    DataCount,
    Tag,
}

impl Section {
    /// A section that is copied to the output as it is.
    pub fn raw(id: u8, bytes: Vec<u8>) -> (res: Section)
        ensures
            res == (Section::Passthrough { id, data: bytes }),
    {
        Section::Passthrough { id, data: bytes }
    }
}

/// A module, as the sections of the input gave it.
///
/// For functions, tables, memories, globals and tags the imported items
/// come first in the index space, in the order of the import section, and
/// the defined ones follow.
#[derive(Clone, Debug, PartialEq, Eq)]
pub struct Module {
    pub types: Vec<SubType>,
    pub rec_groups: Vec<RecGroup>,
    pub num_imported_functions: u32,
    pub num_imported_tables: u32,
    pub num_imported_memories: u32,
    pub num_imported_globals: u32,
    pub num_imported_tags: u32,
    pub func_types: Vec<u32>,
    pub table_types: Vec<TableType>,
    pub memory_types: Vec<MemoryType>,
    pub global_types: Vec<GlobalType>,
    pub tag_types: Vec<TagType>,
    pub imports: Vec<Import>,
    pub defined_tables: Vec<Table>,
    pub defined_globals: Vec<Global>,
    pub exports: Vec<Export>,
    pub start_idx: Option<u32>,
    pub elems: Vec<Element>,
    pub defined_funcs: Vec<Func>,
    pub datas: Vec<Data>,
    pub sections: Vec<Section>,
}

/// What any of the instructions of a sequence uses.
pub open spec fn instrs_uses(ops: Seq<Operator>) -> Set<Relocation> {
    Set::new(
        |r: Relocation|
            exists|k: int| 0 <= k < ops.len() && #[trigger] instr_uses(ops[k]).contains(r),
    )
}

/// What a constant expression uses: what its instructions use.
pub open spec fn constexpr_uses(expr: ConstExpr) -> Set<Relocation> {
    instrs_uses(expr.ops@)
}

/// What any of the constant expressions of a list uses.
pub open spec fn constexprs_uses(exprs: Seq<ConstExpr>) -> Set<Relocation> {
    Set::new(
        |r: Relocation|
            exists|k: int| 0 <= k < exprs.len() && #[trigger] constexpr_uses(exprs[k]).contains(r),
    )
}

/// What the declarations of locals use: what their types use.
pub open spec fn locals_uses(locals: Seq<(u32, ValType)>) -> Set<Relocation> {
    Set::new(
        |r: Relocation|
            exists|k: int|
                0 <= k < locals.len() && #[trigger] valtype_uses(locals[k].1).contains(r),
    )
}

/// The functions that a list of function indices names.
pub open spec fn funcs_uses(funcs: Seq<u32>) -> Set<Relocation> {
    Set::new(
        |r: Relocation|
            exists|k: int| 0 <= k < funcs.len() && r == Relocation::Func(#[trigger] funcs[k]),
    )
}

/// What the body of a defined function uses: its type, the types of its
/// locals, and what its instructions use.
pub open spec fn func_body_uses(func: Func) -> Set<Relocation> {
    set![Relocation::Type(func.type_idx)].union(locals_uses(func.locals@)).union(
        instrs_uses(func.instructions@),
    )
}

/// What the initialiser of a defined table uses.
pub open spec fn table_init_uses(init: TableInit) -> Set<Relocation> {
    match init {
        TableInit::RefNull => Set::empty(),
        TableInit::Expr(expr) => constexpr_uses(expr),
    }
}

/// What the mode of a data segment uses: nothing if passive, else its
/// memory and what its offset uses.
pub open spec fn data_kind_uses(kind: DataKind) -> Set<Relocation> {
    match kind {
        DataKind::Passive => Set::empty(),
        DataKind::Active { memory_index, offset_expr } => set![
            Relocation::Memory(memory_index),
        ].union(constexpr_uses(offset_expr)),
    }
}

/// The table that an active element segment initialises: table 0 where the
/// segment names none.
pub open spec fn active_table(table_index: Option<u32>) -> u32 {
    match table_index {
        Some(table) => table,
        None => 0,
    }
}

/// What the mode of an element segment uses: nothing unless active, else
/// its table and what its offset uses.
pub open spec fn element_kind_uses(kind: ElementKind) -> Set<Relocation> {
    match kind {
        ElementKind::Passive => Set::empty(),
        ElementKind::Declared => Set::empty(),
        ElementKind::Active { table_index, offset_expr } => set![
            Relocation::Table(active_table(table_index)),
        ].union(constexpr_uses(offset_expr)),
    }
}

/// What the payload of an element segment uses: the functions it lists, or
/// its element type's uses and what its expressions use.
pub open spec fn element_items_uses(items: ElementItems) -> Set<Relocation> {
    match items {
        ElementItems::Functions(funcs) => funcs_uses(funcs@),
        ElementItems::Expressions(ref_type, exprs) => reftype_uses(ref_type).union(
            constexprs_uses(exprs@),
        ),
    }
}

/// The items that the instructions of a sequence reference.
pub fn get_instrs_uses(items: &Vec<Operator>) -> (res: Uses)
    ensures
        res.well_formed(),
        res@ == instrs_uses(items@),
{
    let mut res = Uses::default();
    let mut k: usize = 0;
    while k < items.len()
        invariant
            0 <= k <= items.len(),
            res.well_formed(),
            res@ == instrs_uses(items@.subrange(0, k as int)),
        decreases items.len() - k,
    {
        let ghost seen = items@.subrange(0, k as int);
        let ghost next = items@.subrange(0, k + 1);
        res.absorb(&get_instr_uses(&items[k]));
        proof {
            assert forall|r: Relocation| res@.contains(r) <==> instrs_uses(next).contains(r) by {
                if instrs_uses(seen).contains(r) {
                    let i = choose|i: int|
                        0 <= i < seen.len() && #[trigger] instr_uses(seen[i]).contains(r);
                    assert(instr_uses(next[i]).contains(r));
                }
                if instr_uses(items@[k as int]).contains(r) {
                    assert(instr_uses(next[k as int]).contains(r));
                }
                if instrs_uses(next).contains(r) {
                    let i = choose|i: int|
                        0 <= i < next.len() && #[trigger] instr_uses(next[i]).contains(r);
                    if i < k {
                        assert(instr_uses(seen[i]).contains(r));
                    }
                }
            }
            assert(res@ =~= instrs_uses(next));
        }
        k += 1;
    }
    proof {
        assert(items@.subrange(0, items.len() as int) =~= items@);
    }
    res
}

/// The items that a constant expression references.
pub fn get_constexpr_uses(expr: &ConstExpr) -> (res: Uses)
    ensures
        res.well_formed(),
        res@ == constexpr_uses(*expr),
{
    get_instrs_uses(&expr.ops)
}

/// The items that the constant expressions of a list reference.
pub fn get_constexprs_uses(items: &Vec<ConstExpr>) -> (res: Uses)
    ensures
        res.well_formed(),
        res@ == constexprs_uses(items@),
{
    let mut res = Uses::default();
    let mut k: usize = 0;
    while k < items.len()
        invariant
            0 <= k <= items.len(),
            res.well_formed(),
            res@ == constexprs_uses(items@.subrange(0, k as int)),
        decreases items.len() - k,
    {
        let ghost seen = items@.subrange(0, k as int);
        let ghost next = items@.subrange(0, k + 1);
        res.absorb(&get_constexpr_uses(&items[k]));
        proof {
            assert forall|r: Relocation|
                res@.contains(r) <==> constexprs_uses(next).contains(r) by {
                if constexprs_uses(seen).contains(r) {
                    let i = choose|i: int|
                        0 <= i < seen.len() && #[trigger] constexpr_uses(seen[i]).contains(r);
                    assert(constexpr_uses(next[i]).contains(r));
                }
                if constexpr_uses(items@[k as int]).contains(r) {
                    assert(constexpr_uses(next[k as int]).contains(r));
                }
                if constexprs_uses(next).contains(r) {
                    let i = choose|i: int|
                        0 <= i < next.len() && #[trigger] constexpr_uses(next[i]).contains(r);
                    if i < k {
                        assert(constexpr_uses(seen[i]).contains(r));
                    }
                }
            }
            assert(res@ =~= constexprs_uses(next));
        }
        k += 1;
    }
    proof {
        assert(items@.subrange(0, items.len() as int) =~= items@);
    }
    res
}

/// The items that the declarations of locals reference.
pub fn get_locals_uses(items: &Vec<(u32, ValType)>) -> (res: Uses)
    ensures
        res.well_formed(),
        res@ == locals_uses(items@),
{
    let mut res = Uses::default();
    let mut k: usize = 0;
    while k < items.len()
        invariant
            0 <= k <= items.len(),
            res.well_formed(),
            res@ == locals_uses(items@.subrange(0, k as int)),
        decreases items.len() - k,
    {
        let ghost seen = items@.subrange(0, k as int);
        let ghost next = items@.subrange(0, k + 1);
        res.absorb(&get_valtype_uses(&items[k].1));
        proof {
            assert forall|r: Relocation| res@.contains(r) <==> locals_uses(next).contains(r) by {
                if locals_uses(seen).contains(r) {
                    let i = choose|i: int|
                        0 <= i < seen.len() && #[trigger] valtype_uses(seen[i].1).contains(r);
                    assert(valtype_uses(next[i].1).contains(r));
                }
                if valtype_uses(items@[k as int].1).contains(r) {
                    assert(valtype_uses(next[k as int].1).contains(r));
                }
                if locals_uses(next).contains(r) {
                    let i = choose|i: int|
                        0 <= i < next.len() && #[trigger] valtype_uses(next[i].1).contains(r);
                    if i < k {
                        assert(valtype_uses(seen[i].1).contains(r));
                    }
                }
            }
            assert(res@ =~= locals_uses(next));
        }
        k += 1;
    }
    proof {
        assert(items@.subrange(0, items.len() as int) =~= items@);
    }
    res
}

/// The functions that a list of function indices names.
pub fn get_funcs_uses(funcs: &Vec<u32>) -> (res: Uses)
    ensures
        res.well_formed(),
        res@ == funcs_uses(funcs@),
{
    let mut res = Uses::default();
    res.live_funcs = sort_dedup(funcs);
    proof {
        assert forall|r: Relocation| res@.contains(r) <==> funcs_uses(funcs@).contains(r) by {
            if res@.contains(r) {
                let i = r.spec_index();
                assert(funcs@.contains(i));
                let k = choose|k: int| 0 <= k < funcs@.len() && funcs@[k] == i;
                assert(r == Relocation::Func(funcs@[k]));
            }
            if funcs_uses(funcs@).contains(r) {
                let k = choose|k: int|
                    0 <= k < funcs@.len() && r == Relocation::Func(#[trigger] funcs@[k]);
                assert(funcs@.contains(funcs@[k]));
            }
        }
        assert(res@ =~= funcs_uses(funcs@));
    }
    res
}

/// The items that the body of a defined function references.
pub fn get_func_body_uses(func: &Func) -> (res: Uses)
    ensures
        res.well_formed(),
        res@ == func_body_uses(*func),
{
    let mut res = Uses::single_type(func.type_idx);
    res.absorb(&get_locals_uses(&func.locals));
    res.absorb(&get_instrs_uses(&func.instructions));
    res
}

/// The items that the initialiser of a defined table references.
pub fn get_table_init_uses(init: &TableInit) -> (res: Uses)
    ensures
        res.well_formed(),
        res@ == table_init_uses(*init),
{
    match init {
        TableInit::RefNull => Uses::default(),
        TableInit::Expr(expr) => get_constexpr_uses(expr),
    }
}

/// The items that the mode of a data segment references.
pub fn get_data_kind_uses(kind: &DataKind) -> (res: Uses)
    ensures
        res.well_formed(),
        res@ == data_kind_uses(*kind),
{
    match kind {
        DataKind::Passive => Uses::default(),
        DataKind::Active { memory_index, offset_expr } => {
            let mut res = Uses::single_memory(*memory_index);
            res.absorb(&get_constexpr_uses(offset_expr));
            res
        },
    }
}

/// The items that the mode of an element segment references.
pub fn get_element_kind_uses(kind: &ElementKind) -> (res: Uses)
    ensures
        res.well_formed(),
        res@ == element_kind_uses(*kind),
{
    match kind {
        ElementKind::Passive => Uses::default(),
        ElementKind::Declared => Uses::default(),
        ElementKind::Active { table_index, offset_expr } => {
            let table: u32 = match table_index {
                Some(table) => *table,
                None => 0,
            };
            let mut res = Uses::single_table(table);
            res.absorb(&get_constexpr_uses(offset_expr));
            res
        },
    }
}

/// The items that the payload of an element segment references.
pub fn get_element_items_uses(items: &ElementItems) -> (res: Uses)
    ensures
        res.well_formed(),
        res@ == element_items_uses(*items),
{
    match items {
        ElementItems::Functions(funcs) => get_funcs_uses(funcs),
        ElementItems::Expressions(ref_type, exprs) => {
            let mut res = get_reftype_uses(ref_type);
            res.absorb(&get_constexprs_uses(exprs));
            res
        },
    }
}

impl Module {
    /// The number of items in the index space that `r` belongs to.
    pub open spec fn space_len(&self, r: Relocation) -> nat {
        match r {
            Relocation::Type(_) => self.types@.len(),
            Relocation::Func(_) => self.func_types@.len(),
            Relocation::Table(_) => self.table_types@.len(),
            Relocation::Global(_) => self.global_types@.len(),
            Relocation::Memory(_) => self.memory_types@.len(),
            Relocation::Data(_) => self.datas@.len(),
            Relocation::Elem(_) => self.elems@.len(),
            Relocation::Tag(_) => self.tag_types@.len(),
        }
    }

    /// The module has the item: its index is within its index space.
    pub open spec fn has(&self, r: Relocation) -> bool {
        r.spec_index() < self.space_len(r)
    }

    /// The lists of the module fit together: in each index space the
    /// imported items and the defined ones make up the whole, and every
    /// index space can be numbered with 32 bits.
    pub open spec fn counts_consistent(&self) -> bool {
        &&& self.func_types@.len() == self.num_imported_functions + self.defined_funcs@.len()
        &&& self.table_types@.len() == self.num_imported_tables + self.defined_tables@.len()
        &&& self.global_types@.len() == self.num_imported_globals + self.defined_globals@.len()
        &&& self.num_imported_memories <= self.memory_types@.len()
        &&& self.num_imported_tags <= self.tag_types@.len()
        &&& self.types@.len() <= u32::MAX
        &&& self.func_types@.len() <= u32::MAX
        &&& self.table_types@.len() <= u32::MAX
        &&& self.global_types@.len() <= u32::MAX
        &&& self.memory_types@.len() <= u32::MAX
        &&& self.tag_types@.len() <= u32::MAX
        &&& self.datas@.len() <= u32::MAX
        &&& self.elems@.len() <= u32::MAX
    }

    /// What the signature of a function with the type `type_idx` uses: what
    /// the parameters and results use, if the module has the type and it is
    /// a function type.
    pub open spec fn signature_uses(&self, type_idx: u32) -> Set<Relocation> {
        if type_idx < self.types@.len() {
            match self.types@[type_idx as int].composite_type.inner {
                CompositeInnerType::Func(func_type) => functype_uses(func_type),
                _ => Set::empty(),
            }
        } else {
            Set::empty()
        }
    }

    /// The items that the signature of a function with the type `type_idx`
    /// references.
    pub fn get_signature_uses(&self, type_idx: u32) -> (res: Uses)
        ensures
            res.well_formed(),
            res@ == self.signature_uses(type_idx),
    {
        if (type_idx as usize) < self.types.len() {
            match &self.types[type_idx as usize].composite_type.inner {
                CompositeInnerType::Func(func_type) => get_functype_uses(func_type),
                _ => Uses::default(),
            }
        } else {
            Uses::default()
        }
    }

    /// The use graph: the items that `item` references directly, and the
    /// item itself.
    ///
    /// A function references its type, what its signature uses and, if the
    /// module defines it, what its body uses. A table or a global references what its type uses
    /// and, if defined, what its initialiser uses. A memory references
    /// nothing else. A tag references its function type. A segment
    /// references what its mode and its payload use.
    #[verifier::opaque]
    pub open spec fn item_uses(&self, item: Relocation) -> Set<Relocation>
        recommends
            self.has(item),
    {
        set![item].union(
            match item {
                Relocation::Type(idx) => type_uses(self.types@[idx as int].composite_type.inner),
                Relocation::Func(idx) => set![Relocation::Type(self.func_types@[idx as int])].union(
                    self.signature_uses(self.func_types@[idx as int]),
                ).union(
                    if idx >= self.num_imported_functions {
                        func_body_uses(self.defined_funcs@[idx - self.num_imported_functions])
                    } else {
                        Set::empty()
                    },
                ),
                Relocation::Table(idx) => tabletype_uses(self.table_types@[idx as int]).union(
                    if idx >= self.num_imported_tables {
                        table_init_uses(self.defined_tables@[idx - self.num_imported_tables].init)
                    } else {
                        Set::empty()
                    },
                ),
                Relocation::Global(idx) => globaltype_uses(self.global_types@[idx as int]).union(
                    if idx >= self.num_imported_globals {
                        constexpr_uses(
                            self.defined_globals@[idx - self.num_imported_globals].init_expr,
                        )
                    } else {
                        Set::empty()
                    },
                ),
                Relocation::Memory(_) => Set::empty(),
                Relocation::Data(idx) => data_kind_uses(self.datas@[idx as int].kind),
                Relocation::Elem(idx) => element_kind_uses(self.elems@[idx as int].kind).union(
                    element_items_uses(self.elems@[idx as int].items),
                ),
                Relocation::Tag(idx) => tagtype_uses(self.tag_types@[idx as int]),
            },
        )
    }

    /// The items that `item` references directly, and the item itself.
    pub fn get_item_uses(&self, item: Relocation) -> (res: Uses)
        requires
            self.counts_consistent(),
            self.has(item),
        ensures
            res.well_formed(),
            res@ == self.item_uses(item),
    {
        reveal(Module::item_uses);
        let mut res = Uses::single(item);
        match item {
            Relocation::Type(idx) => {
                res.absorb(&get_type_uses(&self.types[idx as usize].composite_type.inner));
            },
            Relocation::Func(idx) => {
                res.absorb(&Uses::single_type(self.func_types[idx as usize]));
                res.absorb(&self.get_signature_uses(self.func_types[idx as usize]));
                if idx >= self.num_imported_functions {
                    let func = &self.defined_funcs[(idx - self.num_imported_functions) as usize];
                    res.absorb(&get_func_body_uses(func));
                }
            },
            Relocation::Table(idx) => {
                res.absorb(&get_tabletype_uses(&self.table_types[idx as usize]));
                if idx >= self.num_imported_tables {
                    let table = &self.defined_tables[(idx - self.num_imported_tables) as usize];
                    res.absorb(&get_table_init_uses(&table.init));
                }
            },
            Relocation::Global(idx) => {
                res.absorb(&get_globaltype_uses(&self.global_types[idx as usize]));
                if idx >= self.num_imported_globals {
                    let global = &self.defined_globals[(idx - self.num_imported_globals) as usize];
                    res.absorb(&get_constexpr_uses(&global.init_expr));
                }
            },
            Relocation::Memory(_) => {},
            Relocation::Data(idx) => {
                res.absorb(&get_data_kind_uses(&self.datas[idx as usize].kind));
            },
            Relocation::Elem(idx) => {
                let elem = &self.elems[idx as usize];
                res.absorb(&get_element_kind_uses(&elem.kind));
                res.absorb(&get_element_items_uses(&elem.items));
            },
            Relocation::Tag(idx) => {
                res.absorb(&get_tagtype_uses(&self.tag_types[idx as usize]));
            },
        }
        assert(res@ =~= self.item_uses(item));
        res
    }
}

} // verus!
