//! Items of a module, named by index space and original index, and the
//! dense renumbering of the live ones.

use crate::sorted::{
    lemma_ascending_lower_bound, lemma_rank_of_element, lower_bound, rank, strictly_ascending,
};
use crate::uses::Uses;
use vstd::prelude::*;

verus! {

/// An item of the module: its index space and its index in the original
/// module. It is the key under which the item's new index is looked up.
#[derive(Clone, Copy, Debug, PartialEq, Eq, Hash, Structural)]
pub enum Relocation {
    Type(u32),
    Func(u32),
    Table(u32),
    Global(u32),
    Memory(u32),
    Data(u32),
    Elem(u32),
    Tag(u32),
}

impl Relocation {
    /// The index of the item within its own index space.
    pub open spec fn spec_index(self) -> u32 {
        match self {
            Relocation::Type(i) => i,
            Relocation::Func(i) => i,
            Relocation::Table(i) => i,
            Relocation::Global(i) => i,
            Relocation::Memory(i) => i,
            Relocation::Data(i) => i,
            Relocation::Elem(i) => i,
            Relocation::Tag(i) => i,
        }
    }

    /// The same index space with another index.
    pub open spec fn with_index(self, i: u32) -> Relocation {
        match self {
            Relocation::Type(_) => Relocation::Type(i),
            Relocation::Func(_) => Relocation::Func(i),
            Relocation::Table(_) => Relocation::Table(i),
            Relocation::Global(_) => Relocation::Global(i),
            Relocation::Memory(_) => Relocation::Memory(i),
            Relocation::Data(_) => Relocation::Data(i),
            Relocation::Elem(_) => Relocation::Elem(i),
            Relocation::Tag(_) => Relocation::Tag(i),
        }
    }

    /// Both items belong to one index space.
    pub open spec fn same_space(self, other: Relocation) -> bool {
        other == self.with_index(other.spec_index())
    }

    /// The item of the same index space that has the index `i`.
    pub fn at(self, i: u32) -> (res: Relocation)
        ensures
            res == self.with_index(i),
    {
        match self {
            Relocation::Type(_) => Relocation::Type(i),
            Relocation::Func(_) => Relocation::Func(i),
            Relocation::Table(_) => Relocation::Table(i),
            Relocation::Global(_) => Relocation::Global(i),
            Relocation::Memory(_) => Relocation::Memory(i),
            Relocation::Data(_) => Relocation::Data(i),
            Relocation::Elem(_) => Relocation::Elem(i),
            Relocation::Tag(_) => Relocation::Tag(i),
        }
    }

    /// The index of the item within its own index space.
    #[verifier::when_used_as_spec(spec_index)]
    pub fn index(self) -> (i: u32)
        ensures
            i == self.spec_index(),
    {
        match self {
            Relocation::Type(i) => i,
            Relocation::Func(i) => i,
            Relocation::Table(i) => i,
            Relocation::Global(i) => i,
            Relocation::Memory(i) => i,
            Relocation::Data(i) => i,
            Relocation::Elem(i) => i,
            Relocation::Tag(i) => i,
        }
    }
}

/// The ways in which isolating a module fails.
#[derive(Clone, Copy, Debug, PartialEq, Eq, Structural)]
pub enum ErrorKind {
    /// The input is malformed, or refers to an item that it does not have.
    Parse,
    /// A construct could not be written to the output.
    Encode,
    /// The module holds a continuation type or a stack-switching
    /// instruction.
    UnsupportedConstruct,
    /// The input could not be read or the output not written.
    Io,
}

/// A failure, with the item of the module at which it was found, if it
/// was found at one.
#[derive(Clone, Copy, Debug, PartialEq, Eq, Structural)]
pub struct Error {
    pub kind: ErrorKind,
    pub item: Option<Relocation>,
}

/// The new index of a live item: the number of live items of its index
/// space that have a smaller original index, which is the item's position
/// in the ascending list of the live items. An item that is not live has
/// none.
pub open spec fn new_index(live: Uses, item: Relocation) -> Option<u32> {
    if live@.contains(item) {
        Some(rank(live.space(item), item.spec_index()) as u32)
    } else {
        None
    }
}

/// The index that is written in place of an original one: the new index
/// of the item if it is live, else the original index unchanged.
pub open spec fn reencoded(live: Uses, item: Relocation) -> u32 {
    match new_index(live, item) {
        Some(idx) => idx,
        None => item.spec_index(),
    }
}

/// The position of `idx` in `live_things`, which holds it.
pub fn get_new_index(live_things: &Vec<u32>, idx: &u32) -> (res: u32)
    requires
        live_things@.contains(*idx),
        live_things@.len() <= u32::MAX,
    ensures
        res < live_things@.len(),
        live_things@[res as int] == *idx,
        forall|k: int| 0 <= k < res ==> live_things@[k] != *idx,
        strictly_ascending(live_things@) ==> res == rank(live_things@, *idx),
{
    let mut k: usize = 0;
    while live_things[k] != *idx
        invariant
            0 <= k < live_things@.len() <= u32::MAX,
            live_things@.contains(*idx),
            forall|i: int| 0 <= i < k ==> live_things@[i] != *idx,
        decreases live_things@.len() - k,
    {
        proof {
            let at = choose|at: int| 0 <= at < live_things@.len() && live_things@[at] == *idx;
            assert(at > k);
        }
        k += 1;
    }
    proof {
        if strictly_ascending(live_things@) {
            lemma_rank_of_element(live_things@, k as int);
        }
    }
    k as u32
}

/// Rewrites original indices to the indices of the smaller module.
///
/// It holds the live items, and gives each the position that it has among
/// the live items of its index space.
pub struct RelocatingReencoder {
    live: Uses,
}

impl RelocatingReencoder {
    /// The live items, by which the indices are rewritten.
    pub closed spec fn live(&self) -> Uses {
        self.live
    }

    /// The lists of the live items are strictly ascending.
    pub open spec fn well_formed(&self) -> bool {
        self.live().well_formed()
    }

    /// A reencoder for the given live items.
    pub fn new(live: Uses) -> (res: RelocatingReencoder)
        requires
            live.well_formed(),
        ensures
            res.well_formed(),
            res.live() == live,
    {
        RelocatingReencoder { live }
    }

    /// The live items that the reencoder was made for.
    pub fn live_items(&self) -> (res: &Uses)
        ensures
            *res == self.live(),
    {
        &self.live
    }

    /// The new index of the item, if it is live.
    pub fn get(&self, item: Relocation) -> (res: Option<u32>)
        requires
            self.well_formed(),
        ensures
            res == new_index(self.live(), item),
    {
        let list = match item {
            Relocation::Type(_) => &self.live.live_types,
            Relocation::Func(_) => &self.live.live_funcs,
            Relocation::Table(_) => &self.live.live_tables,
            Relocation::Global(_) => &self.live.live_globals,
            Relocation::Memory(_) => &self.live.live_memories,
            Relocation::Data(_) => &self.live.live_datas,
            Relocation::Elem(_) => &self.live.live_elems,
            Relocation::Tag(_) => &self.live.live_tags,
        };
        assert(list@ == self.live.space(item));
        let idx = item.index();
        let p = lower_bound(list, idx);
        if p < list.len() && list[p] == idx {
            proof {
                lemma_ascending_lower_bound(list@, p as int);
            }
            Some(p as u32)
        } else {
            None
        }
    }

    /// The index to write for the original index `item` names.
    pub fn index(&self, item: Relocation) -> (res: u32)
        requires
            self.well_formed(),
        ensures
            res == reencoded(self.live(), item),
    {
        match self.get(item) {
            Some(idx) => idx,
            None => item.index(),
        }
    }

    /// The index to write for the data segment `data`.
    pub fn data_index(&self, data: u32) -> (res: u32)
        requires
            self.well_formed(),
        ensures
            res == reencoded(self.live(), Relocation::Data(data)),
    {
        self.index(Relocation::Data(data))
    }

    /// The index to write for the element segment `element`.
    pub fn element_index(&self, element: u32) -> (res: u32)
        requires
            self.well_formed(),
        ensures
            res == reencoded(self.live(), Relocation::Elem(element)),
    {
        self.index(Relocation::Elem(element))
    }

    /// The index to write for the function `func`.
    pub fn function_index(&self, func: u32) -> (res: u32)
        requires
            self.well_formed(),
        ensures
            res == reencoded(self.live(), Relocation::Func(func)),
    {
        self.index(Relocation::Func(func))
    }

    /// The index to write for the global `global`.
    pub fn global_index(&self, global: u32) -> (res: u32)
        requires
            self.well_formed(),
        ensures
            res == reencoded(self.live(), Relocation::Global(global)),
    {
        self.index(Relocation::Global(global))
    }

    /// The index to write for the memory `memory`.
    pub fn memory_index(&self, memory: u32) -> (res: u32)
        requires
            self.well_formed(),
        ensures
            res == reencoded(self.live(), Relocation::Memory(memory)),
    {
        self.index(Relocation::Memory(memory))
    }

    /// The index to write for the table `table`.
    pub fn table_index(&self, table: u32) -> (res: u32)
        requires
            self.well_formed(),
        ensures
            res == reencoded(self.live(), Relocation::Table(table)),
    {
        self.index(Relocation::Table(table))
    }

    /// The index to write for the tag `tag`.
    pub fn tag_index(&self, tag: u32) -> (res: u32)
        requires
            self.well_formed(),
        ensures
            res == reencoded(self.live(), Relocation::Tag(tag)),
    {
        self.index(Relocation::Tag(tag))
    }

    /// The index to write for the type `ty`.
    pub fn type_index(&self, ty: u32) -> (res: u32)
        requires
            self.well_formed(),
        ensures
            res == reencoded(self.live(), Relocation::Type(ty)),
    {
        self.index(Relocation::Type(ty))
    }
}

} // verus!
