//! Which items a selection reaches through the use graph.

use crate::module::{
    ConstExpr, DataKind, ElementItems, ElementKind, Module, TableInit,
};
use crate::operators::Operator;
use crate::relocation::{Error, ErrorKind, Relocation};
use crate::sorted::lemma_ascending_len_bound;
use crate::types::CompositeInnerType;
use crate::uses::{is_stack_switching, stack_switching, Uses};
use vstd::prelude::*;

verus! {

/// The original indices that the user asked to keep, one list per index
/// space, in the order given. An index may occur twice, and may lie past
/// the end of its index space.
#[derive(Clone, Debug, PartialEq, Eq)]
pub struct Selection {
    pub types: Vec<u32>,
    pub funcs: Vec<u32>,
    pub tables: Vec<u32>,
    pub globals: Vec<u32>,
    pub memories: Vec<u32>,
    pub datas: Vec<u32>,
    pub elems: Vec<u32>,
    pub tags: Vec<u32>,
}

impl Selection {
    /// The list of the index space that `r` belongs to.
    pub open spec fn space(&self, r: Relocation) -> Seq<u32> {
        match r {
            Relocation::Type(_) => self.types@,
            Relocation::Func(_) => self.funcs@,
            Relocation::Table(_) => self.tables@,
            Relocation::Global(_) => self.globals@,
            Relocation::Memory(_) => self.memories@,
            Relocation::Data(_) => self.datas@,
            Relocation::Elem(_) => self.elems@,
            Relocation::Tag(_) => self.tags@,
        }
    }

    /// The selection names the item.
    pub open spec fn names(&self, r: Relocation) -> bool {
        self.space(r).contains(r.spec_index())
    }

    /// The seeds of the search: the items that the selection names and the
    /// module has. An index past the end of its index space names nothing.
    pub open spec fn seeds(&self, module: Module) -> Set<Relocation> {
        Set::new(|r: Relocation| self.names(r) && module.has(r))
    }
}

/// Each item of the path references the next one.
pub open spec fn is_path(module: Module, path: Seq<Relocation>) -> bool {
    forall|k: int|
        0 <= k < path.len() - 1 ==> module.item_uses(#[trigger] path[k]).contains(path[k + 1])
}

/// A chain of references leads from one of the seeds to the item.
#[verifier::opaque]
pub open spec fn reachable(module: Module, seeds: Set<Relocation>, item: Relocation) -> bool {
    exists|path: Seq<Relocation>|
        #![trigger is_path(module, path)]
        path.len() > 0 && seeds.contains(path[0]) && path.last() == item && is_path(module, path)
}

/// The set holds everything that its members reference.
pub open spec fn closed(module: Module, live: Set<Relocation>) -> bool {
    forall|x: Relocation, y: Relocation|
        live.contains(x) && #[trigger] module.item_uses(x).contains(y) ==> live.contains(y)
}

/// A seed is reachable.
pub proof fn lemma_seed_reachable(module: Module, seeds: Set<Relocation>, item: Relocation)
    requires
        seeds.contains(item),
    ensures
        reachable(module, seeds, item),
{
    reveal(reachable);
    let path = seq![item];
    assert(is_path(module, path));
}

/// What a reachable item references is reachable.
pub proof fn lemma_step_reachable(
    module: Module,
    seeds: Set<Relocation>,
    x: Relocation,
    y: Relocation,
)
    requires
        reachable(module, seeds, x),
        module.item_uses(x).contains(y),
    ensures
        reachable(module, seeds, y),
{
    reveal(reachable);
    let path = choose|path: Seq<Relocation>|
        #![trigger is_path(module, path)]
        path.len() > 0 && seeds.contains(path[0]) && path.last() == x && is_path(module, path);
    let longer = path.push(y);
    assert forall|k: int| 0 <= k < longer.len() - 1 implies module.item_uses(
        #[trigger] longer[k],
    ).contains(longer[k + 1]) by {
        if k < path.len() - 1 {
            assert(module.item_uses(path[k]).contains(path[k + 1]));
        }
    }
    assert(is_path(module, longer));
}

/// Where every reference of the module names an item of the module, every
/// item that a selection reaches is an item of the module.
pub proof fn lemma_reachable_has(module: Module, selection: Selection, item: Relocation)
    requires
        module.refs_in_range(),
        reachable(module, selection.seeds(module), item),
    ensures
        module.has(item),
{
    let items = Set::new(|r: Relocation| module.has(r));
    assert(closed(module, items));
    assert(selection.seeds(module).subset_of(items));
    lemma_closed_holds_reachable(module, selection.seeds(module), items, item);
}

/// A closed set that holds the seeds holds every reachable item.
pub proof fn lemma_closed_holds_reachable(
    module: Module,
    seeds: Set<Relocation>,
    live: Set<Relocation>,
    item: Relocation,
)
    requires
        seeds.subset_of(live),
        closed(module, live),
        reachable(module, seeds, item),
    ensures
        live.contains(item),
{
    reveal(reachable);
    let path = choose|path: Seq<Relocation>|
        #![trigger is_path(module, path)]
        path.len() > 0 && seeds.contains(path[0]) && path.last() == item && is_path(module, path);
    lemma_path_in_closed(module, live, path, path.len() - 1);
}

proof fn lemma_path_in_closed(
    module: Module,
    live: Set<Relocation>,
    path: Seq<Relocation>,
    k: int,
)
    requires
        closed(module, live),
        is_path(module, path),
        path.len() > 0,
        live.contains(path[0]),
        0 <= k < path.len(),
    ensures
        live.contains(path[k]),
    decreases k,
{
    if k > 0 {
        lemma_path_in_closed(module, live, path, k - 1);
        assert(module.item_uses(path[k - 1]).contains(path[k]));
    }
}

/// One of the instructions belongs to the stack-switching proposal.
pub open spec fn instrs_unsupported(ops: Seq<Operator>) -> bool {
    exists|k: int| 0 <= k < ops.len() && is_stack_switching(#[trigger] ops[k])
}

/// One of the constant expressions holds a stack-switching instruction.
pub open spec fn constexprs_unsupported(exprs: Seq<ConstExpr>) -> bool {
    exists|k: int| 0 <= k < exprs.len() && instrs_unsupported((#[trigger] exprs[k]).ops@)
}

/// The initialiser of a table holds a stack-switching instruction.
pub open spec fn table_init_unsupported(init: TableInit) -> bool {
    match init {
        TableInit::RefNull => false,
        TableInit::Expr(expr) => instrs_unsupported(expr.ops@),
    }
}

impl Module {
    /// Every item that an item of the module references is an item of the
    /// module.
    pub open spec fn refs_in_range(&self) -> bool {
        forall|x: Relocation, y: Relocation|
            self.has(x) && #[trigger] self.item_uses(x).contains(y) ==> self.has(y)
    }

    /// The item is a continuation type, or a stack-switching instruction
    /// stands in its body or in one of its constant expressions.
    #[verifier::opaque]
    pub open spec fn unsupported(&self, item: Relocation) -> bool
        recommends
            self.has(item),
    {
        match item {
            Relocation::Type(idx) => self.types@[idx as int].composite_type.inner is Cont,
            Relocation::Func(idx) => idx >= self.num_imported_functions && instrs_unsupported(
                self.defined_funcs@[idx - self.num_imported_functions].instructions@,
            ),
            Relocation::Table(idx) => idx >= self.num_imported_tables && table_init_unsupported(
                self.defined_tables@[idx - self.num_imported_tables].init,
            ),
            Relocation::Global(idx) => idx >= self.num_imported_globals && instrs_unsupported(
                self.defined_globals@[idx - self.num_imported_globals].init_expr.ops@,
            ),
            Relocation::Memory(_) => false,
            Relocation::Data(idx) => match self.datas@[idx as int].kind {
                DataKind::Passive => false,
                DataKind::Active { memory_index: _, offset_expr } => instrs_unsupported(
                    offset_expr.ops@,
                ),
            },
            Relocation::Elem(idx) => (match self.elems@[idx as int].kind {
                ElementKind::Active { table_index: _, offset_expr } => instrs_unsupported(
                    offset_expr.ops@,
                ),
                _ => false,
            }) || (match self.elems@[idx as int].items {
                ElementItems::Functions(_) => false,
                ElementItems::Expressions(_, exprs) => constexprs_unsupported(exprs@),
            }),
            Relocation::Tag(_) => false,
        }
    }

    /// The number of items in all index spaces together.
    pub open spec fn item_count(&self) -> nat {
        self.types@.len() + self.func_types@.len() + self.table_types@.len()
            + self.global_types@.len() + self.memory_types@.len() + self.datas@.len()
            + self.elems@.len() + self.tag_types@.len()
    }

    /// Tells whether the module has the item.
    pub fn has_item(&self, item: Relocation) -> (res: bool)
        ensures
            res == self.has(item),
    {
        match item {
            Relocation::Type(idx) => (idx as usize) < self.types.len(),
            Relocation::Func(idx) => (idx as usize) < self.func_types.len(),
            Relocation::Table(idx) => (idx as usize) < self.table_types.len(),
            Relocation::Global(idx) => (idx as usize) < self.global_types.len(),
            Relocation::Memory(idx) => (idx as usize) < self.memory_types.len(),
            Relocation::Data(idx) => (idx as usize) < self.datas.len(),
            Relocation::Elem(idx) => (idx as usize) < self.elems.len(),
            Relocation::Tag(idx) => (idx as usize) < self.tag_types.len(),
        }
    }

    /// Tells whether the item holds a construct that this library does not
    /// handle.
    pub fn is_unsupported(&self, item: Relocation) -> (res: bool)
        requires
            self.counts_consistent(),
            self.has(item),
        ensures
            res == self.unsupported(item),
    {
        reveal(Module::unsupported);
        match item {
            Relocation::Type(idx) => match &self.types[idx as usize].composite_type.inner {
                CompositeInnerType::Cont(_) => true,
                _ => false,
            },
            Relocation::Func(idx) => idx >= self.num_imported_functions && any_stack_switching(
                &self.defined_funcs[(idx - self.num_imported_functions) as usize].instructions,
            ),
            Relocation::Table(idx) => idx >= self.num_imported_tables && {
                let table = &self.defined_tables[(idx - self.num_imported_tables) as usize];
                match &table.init {
                    TableInit::RefNull => false,
                    TableInit::Expr(expr) => any_stack_switching(&expr.ops),
                }
            },
            Relocation::Global(idx) => idx >= self.num_imported_globals && any_stack_switching(
                &self.defined_globals[(idx - self.num_imported_globals) as usize].init_expr.ops,
            ),
            Relocation::Memory(_) => false,
            Relocation::Data(idx) => match &self.datas[idx as usize].kind {
                DataKind::Passive => false,
                DataKind::Active { memory_index: _, offset_expr } => any_stack_switching(
                    &offset_expr.ops,
                ),
            },
            Relocation::Elem(idx) => {
                let in_kind = match &self.elems[idx as usize].kind {
                    ElementKind::Active { table_index: _, offset_expr } => any_stack_switching(
                        &offset_expr.ops,
                    ),
                    _ => false,
                };
                let in_items = match &self.elems[idx as usize].items {
                    ElementItems::Functions(_) => false,
                    ElementItems::Expressions(_, exprs) => any_expr_stack_switching(exprs),
                };
                in_kind || in_items
            },
            Relocation::Tag(_) => false,
        }
    }
}

/// Tells whether one of the instructions belongs to the stack-switching
/// proposal.
pub fn any_stack_switching(ops: &Vec<Operator>) -> (res: bool)
    ensures
        res == instrs_unsupported(ops@),
{
    let mut k: usize = 0;
    while k < ops.len()
        invariant
            0 <= k <= ops.len(),
            forall|i: int| 0 <= i < k ==> !is_stack_switching(#[trigger] ops@[i]),
        decreases ops.len() - k,
    {
        if stack_switching(&ops[k]) {
            return true;
        }
        k += 1;
    }
    false
}

/// Tells whether one of the constant expressions holds a stack-switching
/// instruction.
pub fn any_expr_stack_switching(exprs: &Vec<ConstExpr>) -> (res: bool)
    ensures
        res == constexprs_unsupported(exprs@),
{
    let mut k: usize = 0;
    while k < exprs.len()
        invariant
            0 <= k <= exprs.len(),
            forall|i: int| 0 <= i < k ==> !instrs_unsupported((#[trigger] exprs@[i]).ops@),
        decreases exprs.len() - k,
    {
        if any_stack_switching(&exprs[k].ops) {
            return true;
        }
        k += 1;
    }
    false
}

/// What holds of the search between two steps: every live item is an item
/// of the module and reachable, the queue holds live items only, and each
/// live item is still queued, or is the one being walked, or was walked:
/// then it is supported and everything it references is live.
spec fn search_inv(
    module: Module,
    seeds: Set<Relocation>,
    live: Uses,
    queue: Seq<Relocation>,
    walking: Option<Relocation>,
) -> bool {
    &&& live.well_formed()
    &&& forall|r: Relocation| #[trigger] live@.contains(r) ==> module.has(r)
    &&& forall|r: Relocation| #[trigger] live@.contains(r) ==> reachable(module, seeds, r)
    &&& forall|k: int| 0 <= k < queue.len() ==> live@.contains(#[trigger] queue[k])
    &&& forall|r: Relocation| #[trigger]
        live@.contains(r) ==> queue.contains(r) || walking == Some(r) || (!module.unsupported(r)
            && module.item_uses(r).subset_of(live@))
}

/// A well-formed set of items of the module holds no more items of an
/// index space than the module has in that space.
pub proof fn lemma_space_bound(module: Module, live: Uses, space: Relocation)
    requires
        live.well_formed(),
        forall|r: Relocation| #[trigger] live@.contains(r) ==> module.has(r),
    ensures
        live.space(space).len() <= module.space_len(space),
{
    let list = live.space(space);
    assert forall|i: int| 0 <= i < list.len() implies list[i] < module.space_len(space) by {
        let item = space.with_index(list[i]);
        assert(live.space(item) == list);
        assert(list.contains(list[i]));
        assert(live@.contains(item));
        assert(module.space_len(item) == module.space_len(space));
    }
    lemma_ascending_len_bound(list, module.space_len(space));
}

/// A well-formed set of items of the module holds no more items than the
/// module has.
proof fn lemma_count_bound(module: Module, live: Uses)
    requires
        live.well_formed(),
        forall|r: Relocation| #[trigger] live@.contains(r) ==> module.has(r),
    ensures
        live.count() <= module.item_count(),
{
    lemma_space_bound(module, live, Relocation::Type(0));
    lemma_space_bound(module, live, Relocation::Func(0));
    lemma_space_bound(module, live, Relocation::Table(0));
    lemma_space_bound(module, live, Relocation::Global(0));
    lemma_space_bound(module, live, Relocation::Memory(0));
    lemma_space_bound(module, live, Relocation::Data(0));
    lemma_space_bound(module, live, Relocation::Elem(0));
    lemma_space_bound(module, live, Relocation::Tag(0));
}

/// Each selected index that names an item of the module names a
/// reachable item.
proof fn lemma_selected_reachable(module: Module, selection: Selection, space: Relocation)
    ensures
        forall|k: int|
            0 <= k < selection.space(space).len() && module.has(
                space.with_index(#[trigger] selection.space(space)[k]),
            ) ==> reachable(
                module,
                selection.seeds(module),
                space.with_index(selection.space(space)[k]),
            ),
{
    let list = selection.space(space);
    assert forall|k: int|
        0 <= k < list.len() && module.has(space.with_index(#[trigger] list[k])) implies reachable(
        module,
        selection.seeds(module),
        space.with_index(list[k]),
    ) by {
        let r = space.with_index(list[k]);
        assert(selection.space(r) == list);
        assert(list.contains(list[k]));
        assert(selection.seeds(module).contains(r));
        lemma_seed_reachable(module, selection.seeds(module), r);
    }
}

/// Each index in the lists of what a reachable item uses names a
/// reachable item.
proof fn lemma_used_reachable(
    module: Module,
    seeds: Set<Relocation>,
    item: Relocation,
    uses: Uses,
    space: Relocation,
)
    requires
        reachable(module, seeds, item),
        uses@ == module.item_uses(item),
    ensures
        forall|k: int|
            0 <= k < uses.space(space).len() ==> reachable(
                module,
                seeds,
                space.with_index(#[trigger] uses.space(space)[k]),
            ),
{
    let list = uses.space(space);
    assert forall|k: int| 0 <= k < list.len() implies reachable(
        module,
        seeds,
        space.with_index(#[trigger] list[k]),
    ) by {
        let r = space.with_index(list[k]);
        assert(uses.space(r) == list);
        assert(list.contains(list[k]));
        assert(uses@.contains(r));
        lemma_step_reachable(module, seeds, item, r);
    }
}

/// Marks as live, and queues, each item of one index space that `list`
/// names, that the module has and that is not live yet.
fn mark_list(
    module: &Module,
    live: &mut Uses,
    queue: &mut Vec<Relocation>,
    list: &Vec<u32>,
    space: Relocation,
    Ghost(seeds): Ghost<Set<Relocation>>,
    Ghost(walking): Ghost<Option<Relocation>>,
)
    requires
        search_inv(*module, seeds, *old(live), old(queue)@, walking),
        forall|k: int|
            0 <= k < list@.len() && module.has(space.with_index(#[trigger] list@[k]))
                ==> reachable(*module, seeds, space.with_index(list@[k])),
    ensures
        search_inv(*module, seeds, *final(live), final(queue)@, walking),
        old(live)@.subset_of(final(live)@),
        forall|k: int|
            0 <= k < list@.len() && module.has(space.with_index(#[trigger] list@[k]))
                ==> final(live)@.contains(space.with_index(list@[k])),
        final(live).count() - old(live).count() == final(queue)@.len() - old(queue)@.len(),
        final(queue)@.len() >= old(queue)@.len(),
{
    let mut k: usize = 0;
    while k < list.len()
        invariant
            0 <= k <= list.len(),
            search_inv(*module, seeds, *live, queue@, walking),
            old(live)@.subset_of(live@),
            forall|i: int|
                0 <= i < list@.len() && module.has(space.with_index(#[trigger] list@[i]))
                    ==> reachable(*module, seeds, space.with_index(list@[i])),
            forall|i: int|
                0 <= i < k && module.has(space.with_index(#[trigger] list@[i]))
                    ==> live@.contains(space.with_index(list@[i])),
            live.count() - old(live).count() == queue@.len() - old(queue)@.len(),
            queue@.len() >= old(queue)@.len(),
        decreases list.len() - k,
    {
        let item = space.at(list[k]);
        if module.has_item(item) && !live.contains(item) {
            let ghost live_before = *live;
            let ghost queue_before = queue@;
            live.insert(item);
            queue.push(item);
            proof {
                assert(queue@[queue_before.len() as int] == item);
                assert forall|r: Relocation| #[trigger]
                    live@.contains(r) implies queue@.contains(r) || walking == Some(r) || (
                !module.unsupported(r) && module.item_uses(r).subset_of(live@)) by {
                    if r == item {
                        assert(queue@.contains(r));
                    } else {
                        assert(live_before@.contains(r));
                        if queue_before.contains(r) {
                            let i = choose|i: int|
                                0 <= i < queue_before.len() && queue_before[i] == r;
                            assert(queue@[i] == r);
                        }
                    }
                }
                assert forall|i: int| 0 <= i < queue@.len() implies live@.contains(
                    #[trigger] queue@[i],
                ) by {
                    if i < queue_before.len() {
                        assert(queue@[i] == queue_before[i]);
                        assert(live_before@.contains(queue_before[i]));
                    }
                }
            }
        }
        k += 1;
    }
}

/// Marks as live, and queues, the selected items that the module has.
fn mark_selection(
    module: &Module,
    selection: &Selection,
    live: &mut Uses,
    queue: &mut Vec<Relocation>,
)
    requires
        search_inv(*module, selection.seeds(*module), *old(live), old(queue)@, None),
    ensures
        search_inv(*module, selection.seeds(*module), *final(live), final(queue)@, None),
        selection.seeds(*module).subset_of(final(live)@),
{
    let ghost seeds = selection.seeds(*module);
    proof {
        lemma_selected_reachable(*module, *selection, Relocation::Type(0));
        lemma_selected_reachable(*module, *selection, Relocation::Func(0));
        lemma_selected_reachable(*module, *selection, Relocation::Table(0));
        lemma_selected_reachable(*module, *selection, Relocation::Global(0));
        lemma_selected_reachable(*module, *selection, Relocation::Memory(0));
        lemma_selected_reachable(*module, *selection, Relocation::Data(0));
        lemma_selected_reachable(*module, *selection, Relocation::Elem(0));
        lemma_selected_reachable(*module, *selection, Relocation::Tag(0));
    }
    mark_list(
        module,
        live,
        queue,
        &selection.types,
        Relocation::Type(0),
        Ghost(seeds),
        Ghost(None),
    );
    let ghost live1 = live@;
    mark_list(
        module,
        live,
        queue,
        &selection.funcs,
        Relocation::Func(0),
        Ghost(seeds),
        Ghost(None),
    );
    let ghost live2 = live@;
    mark_list(
        module,
        live,
        queue,
        &selection.tables,
        Relocation::Table(0),
        Ghost(seeds),
        Ghost(None),
    );
    let ghost live3 = live@;
    mark_list(
        module,
        live,
        queue,
        &selection.globals,
        Relocation::Global(0),
        Ghost(seeds),
        Ghost(None),
    );
    let ghost live4 = live@;
    mark_list(
        module,
        live,
        queue,
        &selection.memories,
        Relocation::Memory(0),
        Ghost(seeds),
        Ghost(None),
    );
    let ghost live5 = live@;
    mark_list(
        module,
        live,
        queue,
        &selection.datas,
        Relocation::Data(0),
        Ghost(seeds),
        Ghost(None),
    );
    let ghost live6 = live@;
    mark_list(
        module,
        live,
        queue,
        &selection.elems,
        Relocation::Elem(0),
        Ghost(seeds),
        Ghost(None),
    );
    let ghost live7 = live@;
    mark_list(module, live, queue, &selection.tags, Relocation::Tag(0), Ghost(seeds), Ghost(None));
    proof {
        assert forall|r: Relocation| seeds.contains(r) implies live@.contains(r) by {
            let list = selection.space(r);
            let k = choose|k: int| 0 <= k < list.len() && list[k] == r.spec_index();
            match r {
                Relocation::Type(_) => {
                    assert(r == Relocation::Type(0).with_index(selection.types@[k]));
                    assert(live1.contains(r));
                },
                Relocation::Func(_) => {
                    assert(r == Relocation::Func(0).with_index(selection.funcs@[k]));
                    assert(live2.contains(r));
                },
                Relocation::Table(_) => {
                    assert(r == Relocation::Table(0).with_index(selection.tables@[k]));
                    assert(live3.contains(r));
                },
                Relocation::Global(_) => {
                    assert(r == Relocation::Global(0).with_index(selection.globals@[k]));
                    assert(live4.contains(r));
                },
                Relocation::Memory(_) => {
                    assert(r == Relocation::Memory(0).with_index(selection.memories@[k]));
                    assert(live5.contains(r));
                },
                Relocation::Data(_) => {
                    assert(r == Relocation::Data(0).with_index(selection.datas@[k]));
                    assert(live6.contains(r));
                },
                Relocation::Elem(_) => {
                    assert(r == Relocation::Elem(0).with_index(selection.elems@[k]));
                    assert(live7.contains(r));
                },
                Relocation::Tag(_) => {
                    assert(r == Relocation::Tag(0).with_index(selection.tags@[k]));
                },
            }
        }
    }
}

/// Marks as live, and queues, what the item being walked uses.
fn mark_uses(
    module: &Module,
    uses: &Uses,
    live: &mut Uses,
    queue: &mut Vec<Relocation>,
    Ghost(seeds): Ghost<Set<Relocation>>,
    Ghost(item): Ghost<Relocation>,
)
    requires
        module.refs_in_range(),
        module.has(item),
        reachable(*module, seeds, item),
        uses@ == module.item_uses(item),
        search_inv(*module, seeds, *old(live), old(queue)@, Some(item)),
    ensures
        search_inv(*module, seeds, *final(live), final(queue)@, Some(item)),
        old(live)@.subset_of(final(live)@),
        module.item_uses(item).subset_of(final(live)@),
        final(live).count() - old(live).count() == final(queue)@.len() - old(queue)@.len(),
        final(queue)@.len() >= old(queue)@.len(),
{
    proof {
        lemma_used_reachable(*module, seeds, item, *uses, Relocation::Type(0));
        lemma_used_reachable(*module, seeds, item, *uses, Relocation::Func(0));
        lemma_used_reachable(*module, seeds, item, *uses, Relocation::Table(0));
        lemma_used_reachable(*module, seeds, item, *uses, Relocation::Global(0));
        lemma_used_reachable(*module, seeds, item, *uses, Relocation::Memory(0));
        lemma_used_reachable(*module, seeds, item, *uses, Relocation::Data(0));
        lemma_used_reachable(*module, seeds, item, *uses, Relocation::Elem(0));
        lemma_used_reachable(*module, seeds, item, *uses, Relocation::Tag(0));
    }
    mark_list(
        module,
        live,
        queue,
        &uses.live_types,
        Relocation::Type(0),
        Ghost(seeds),
        Ghost(Some(item)),
    );
    let ghost live1 = live@;
    mark_list(
        module,
        live,
        queue,
        &uses.live_funcs,
        Relocation::Func(0),
        Ghost(seeds),
        Ghost(Some(item)),
    );
    let ghost live2 = live@;
    mark_list(
        module,
        live,
        queue,
        &uses.live_tables,
        Relocation::Table(0),
        Ghost(seeds),
        Ghost(Some(item)),
    );
    let ghost live3 = live@;
    mark_list(
        module,
        live,
        queue,
        &uses.live_globals,
        Relocation::Global(0),
        Ghost(seeds),
        Ghost(Some(item)),
    );
    let ghost live4 = live@;
    mark_list(
        module,
        live,
        queue,
        &uses.live_memories,
        Relocation::Memory(0),
        Ghost(seeds),
        Ghost(Some(item)),
    );
    let ghost live5 = live@;
    mark_list(
        module,
        live,
        queue,
        &uses.live_datas,
        Relocation::Data(0),
        Ghost(seeds),
        Ghost(Some(item)),
    );
    let ghost live6 = live@;
    mark_list(
        module,
        live,
        queue,
        &uses.live_elems,
        Relocation::Elem(0),
        Ghost(seeds),
        Ghost(Some(item)),
    );
    let ghost live7 = live@;
    mark_list(
        module,
        live,
        queue,
        &uses.live_tags,
        Relocation::Tag(0),
        Ghost(seeds),
        Ghost(Some(item)),
    );
    proof {
        assert forall|r: Relocation| uses@.contains(r) implies live@.contains(r) by {
            let list = uses.space(r);
            let k = choose|k: int| 0 <= k < list.len() && list[k] == r.spec_index();
            assert(module.has(r));
            match r {
                Relocation::Type(_) => {
                    assert(r == Relocation::Type(0).with_index(uses.live_types@[k]));
                    assert(live1.contains(r));
                },
                Relocation::Func(_) => {
                    assert(r == Relocation::Func(0).with_index(uses.live_funcs@[k]));
                    assert(live2.contains(r));
                },
                Relocation::Table(_) => {
                    assert(r == Relocation::Table(0).with_index(uses.live_tables@[k]));
                    assert(live3.contains(r));
                },
                Relocation::Global(_) => {
                    assert(r == Relocation::Global(0).with_index(uses.live_globals@[k]));
                    assert(live4.contains(r));
                },
                Relocation::Memory(_) => {
                    assert(r == Relocation::Memory(0).with_index(uses.live_memories@[k]));
                    assert(live5.contains(r));
                },
                Relocation::Data(_) => {
                    assert(r == Relocation::Data(0).with_index(uses.live_datas@[k]));
                    assert(live6.contains(r));
                },
                Relocation::Elem(_) => {
                    assert(r == Relocation::Elem(0).with_index(uses.live_elems@[k]));
                    assert(live7.contains(r));
                },
                Relocation::Tag(_) => {
                    assert(r == Relocation::Tag(0).with_index(uses.live_tags@[k]));
                },
            }
        }
    }
}

/// After the last item of the queue was taken off it to be walked, the
/// search is as it was, with that item being walked.
proof fn lemma_take(
    module: Module,
    seeds: Set<Relocation>,
    live: Uses,
    queue: Seq<Relocation>,
)
    requires
        search_inv(module, seeds, live, queue, None),
        queue.len() > 0,
    ensures
        search_inv(module, seeds, live, queue.drop_last(), Some(queue.last())),
        live@.contains(queue.last()),
        module.has(queue.last()),
        reachable(module, seeds, queue.last()),
{
    let rest = queue.drop_last();
    let item = queue.last();
    assert(live@.contains(queue[queue.len() - 1]));
    assert forall|r: Relocation| #[trigger] live@.contains(r) implies rest.contains(r) || Some(item)
        == Some(r) || (!module.unsupported(r) && module.item_uses(r).subset_of(live@)) by {
        if queue.contains(r) && r != item {
            let i = choose|i: int| 0 <= i < queue.len() && queue[i] == r;
            assert(rest[i] == r);
        }
    }
    assert forall|k: int| 0 <= k < rest.len() implies live@.contains(#[trigger] rest[k]) by {
        assert(rest[k] == queue[k]);
    }
}

/// Once everything that the item being walked uses is live, and the item
/// is supported, the item is walked.
proof fn lemma_walked(
    module: Module,
    seeds: Set<Relocation>,
    live: Uses,
    queue: Seq<Relocation>,
    item: Relocation,
)
    requires
        search_inv(module, seeds, live, queue, Some(item)),
        !module.unsupported(item),
        module.item_uses(item).subset_of(live@),
    ensures
        search_inv(module, seeds, live, queue, None),
{
}

/// When the queue is empty, the live items are the reachable ones, and
/// all of them are supported.
proof fn lemma_done(module: Module, seeds: Set<Relocation>, live: Uses)
    requires
        search_inv(module, seeds, live, Seq::empty(), None),
        seeds.subset_of(live@),
    ensures
        forall|r: Relocation| live@.contains(r) <==> reachable(module, seeds, r),
        forall|r: Relocation| reachable(module, seeds, r) ==> !module.unsupported(r),
{
    let queue = Seq::<Relocation>::empty();
    assert forall|x: Relocation, y: Relocation|
        live@.contains(x) && #[trigger] module.item_uses(x).contains(y) implies live@.contains(
        y,
    ) by {
        assert(!queue.contains(x));
        assert(module.item_uses(x).subset_of(live@));
    }
    assert(closed(module, live@));
    assert forall|r: Relocation| reachable(module, seeds, r) implies live@.contains(r)
        && !module.unsupported(r) by {
        lemma_closed_holds_reachable(module, seeds, live@, r);
        assert(!queue.contains(r));
    }
    assert forall|r: Relocation| live@.contains(r) <==> reachable(module, seeds, r) by {
        if live@.contains(r) {
            assert(reachable(module, seeds, r));
        }
        if reachable(module, seeds, r) {
            lemma_closed_holds_reachable(module, seeds, live@, r);
        }
    }
}

/// The items that the selection reaches: the seeds, which are the
/// selected items that the module has, and whatever a chain of references
/// leads to from one of them.
///
/// The search fails if it comes upon an item that holds a construct that
/// this library does not handle, and only then.
pub fn find_live(module: &Module, selection: &Selection) -> (res: Result<Uses, Error>)
    requires
        module.counts_consistent(),
        module.refs_in_range(),
    ensures
        res is Ok <==> forall|r: Relocation|
            reachable(*module, selection.seeds(*module), r) ==> !module.unsupported(r),
        res matches Ok(live) ==> {
            &&& live.well_formed()
            &&& forall|r: Relocation|
                live@.contains(r) <==> reachable(*module, selection.seeds(*module), r)
        },
        res matches Err(e) ==> {
            &&& e.kind == ErrorKind::UnsupportedConstruct
            &&& e.item matches Some(item) && reachable(*module, selection.seeds(*module), item)
                && module.unsupported(item)
        },
{
    let ghost seeds = selection.seeds(*module);
    let mut live = Uses::default();
    let mut queue: Vec<Relocation> = Vec::new();
    mark_selection(module, selection, &mut live, &mut queue);
    while queue.len() > 0
        invariant
            module.counts_consistent(),
            module.refs_in_range(),
            seeds == selection.seeds(*module),
            search_inv(*module, seeds, live, queue@, None),
            seeds.subset_of(live@),
        decreases module.item_count() - live.count(), queue@.len(),
    {
        proof {
            lemma_count_bound(*module, live);
            lemma_take(*module, seeds, live, queue@);
        }
        let item = queue.pop().unwrap();
        if module.is_unsupported(item) {
            return Err(Error { kind: ErrorKind::UnsupportedConstruct, item: Some(item) });
        }
        let uses = module.get_item_uses(item);
        mark_uses(module, &uses, &mut live, &mut queue, Ghost(seeds), Ghost(item));
        proof {
            lemma_walked(*module, seeds, live, queue@, item);
            lemma_count_bound(*module, live);
        }
    }
    proof {
        assert(queue@ =~= Seq::empty());
        lemma_done(*module, seeds, live);
    }
    Ok(live)
}

} // verus!
