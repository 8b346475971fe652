//! The whole way from a module and a selection to the plan of the smaller
//! module and the report.

use crate::emit::{emit_sections, emits, live_in, EmitSection};
use crate::module::Module;
use crate::names::{get_report_line, report_line};
use crate::reach::{find_live, reachable, Selection};
use crate::relocation::{new_index, Error, ErrorKind, RelocatingReencoder, Relocation};
use crate::uses::Uses;
use vstd::prelude::*;
use vstd::string::*;

verus! {

/// The smaller module: the reencoder that holds its live items, and its
/// sections in the order in which they are written.
pub struct Isolated {
    pub reencoder: RelocatingReencoder,
    pub sections: Vec<EmitSection>,
}

/// Isolates the selected items of the module: finds what they reach,
/// renumbers it, and plans the sections of the smaller module.
///
/// A module whose lists do not fit together, or that refers to an item
/// that it does not have, is refused as malformed. A selected index past
/// the end of its index space is ignored. The search fails on a
/// continuation type or a stack-switching instruction in an item that the
/// selection reaches.
pub fn isolate(module: &Module, selection: &Selection) -> (res: Result<Isolated, Error>)
    ensures
        res is Ok <==> module.well_formed() && forall|r: Relocation|
            reachable(*module, selection.seeds(*module), r) ==> !module.unsupported(r),
        res matches Ok(out) ==> {
            &&& out.reencoder.well_formed()
            &&& live_in(*module, out.reencoder.live())
            &&& forall|r: Relocation|
                out.reencoder.live()@.contains(r) <==> reachable(
                    *module,
                    selection.seeds(*module),
                    r,
                )
            &&& out.sections@.len() == module.sections@.len()
            &&& forall|k: int|
                0 <= k < out.sections@.len() ==> emits(
                    #[trigger] out.sections@[k],
                    module.sections@[k],
                    *module,
                    *selection,
                    out.reencoder.live(),
                )
        },
        res matches Err(e) ==> if module.well_formed() {
            &&& e.kind == ErrorKind::UnsupportedConstruct
            &&& e.item matches Some(item) && reachable(*module, selection.seeds(*module), item)
                && module.unsupported(item)
        } else {
            e.kind == ErrorKind::Parse && e.item is None
        },
{
    match module.check() {
        Err(e) => {
            return Err(e);
        },
        Ok(_) => {},
    }
    let live = match find_live(module, selection) {
        Err(e) => {
            return Err(e);
        },
        Ok(live) => live,
    };
    proof {
        assert forall|r: Relocation| #[trigger] live@.contains(r) implies module.has(r) by {
            crate::reach::lemma_reachable_has(*module, *selection, r);
        }
    }
    let reencoder = RelocatingReencoder::new(live);
    let sections = emit_sections(module, selection, &reencoder);
    Ok(Isolated { reencoder, sections })
}

/// The lines of the report for the selected indices of one index space,
/// in the order of the selection.
pub open spec fn report_lines(list: Seq<u32>, space: Relocation, live: Uses) -> Seq<Seq<char>> {
    Seq::new(
        list.len(),
        |k: int| report_line(space.with_index(list[k]), new_index(live, space.with_index(list[k]))),
    )
}

/// The report: a heading, then one line for each selected index, by index
/// space, which says where the item went or that it was ignored.
pub open spec fn report_text(selection: Selection, live: Uses) -> Seq<Seq<char>> {
    seq!["Success! The requested items are now located at these indices:"@] + report_lines(
        selection.types@,
        Relocation::Type(0),
        live,
    ) + report_lines(selection.funcs@, Relocation::Func(0), live) + report_lines(
        selection.tables@,
        Relocation::Table(0),
        live,
    ) + report_lines(selection.globals@, Relocation::Global(0), live) + report_lines(
        selection.memories@,
        Relocation::Memory(0),
        live,
    ) + report_lines(selection.datas@, Relocation::Data(0), live) + report_lines(
        selection.elems@,
        Relocation::Elem(0),
        live,
    ) + report_lines(selection.tags@, Relocation::Tag(0), live)
}

/// The texts of the lines of a list.
pub open spec fn line_views(lines: Seq<String>) -> Seq<Seq<char>> {
    Seq::new(lines.len(), |k: int| lines[k]@)
}

/// Appends the lines of the report for the selected indices of one index
/// space.
fn push_report_lines(
    lines: &mut Vec<String>,
    list: &Vec<u32>,
    space: Relocation,
    reencoder: &RelocatingReencoder,
)
    requires
        reencoder.well_formed(),
    ensures
        line_views(final(lines)@) == line_views(old(lines)@) + report_lines(
            list@,
            space,
            reencoder.live(),
        ),
{
    let ghost given = line_views(lines@);
    let ghost live = reencoder.live();
    let mut k: usize = 0;
    while k < list.len()
        invariant
            0 <= k <= list.len(),
            reencoder.well_formed(),
            live == reencoder.live(),
            line_views(lines@).len() == given.len() + k,
            forall|i: int| 0 <= i < given.len() ==> line_views(lines@)[i] == given[i],
            forall|i: int|
                0 <= i < k ==> line_views(lines@)[given.len() + i] == report_lines(
                    list@,
                    space,
                    live,
                )[i],
        decreases list.len() - k,
    {
        let ghost views_before = line_views(lines@);
        let item = space.at(list[k]);
        let line = get_report_line(item, reencoder.get(item));
        lines.push(line);
        proof {
            assert(line_views(lines@) =~= views_before.push(line@));
        }
        k += 1;
    }
    proof {
        assert(line_views(lines@) =~= given + report_lines(list@, space, live));
    }
}

/// The report on where the selected items went.
pub fn report(selection: &Selection, reencoder: &RelocatingReencoder) -> (res: Vec<String>)
    requires
        reencoder.well_formed(),
    ensures
        line_views(res@) == report_text(*selection, reencoder.live()),
{
    let mut res: Vec<String> = Vec::new();
    let heading = String::from_str(
        "Success! The requested items are now located at these indices:",
    );
    res.push(heading);
    assert(line_views(res@) =~= seq![
        "Success! The requested items are now located at these indices:"@,
    ]);
    push_report_lines(&mut res, &selection.types, Relocation::Type(0), reencoder);
    push_report_lines(&mut res, &selection.funcs, Relocation::Func(0), reencoder);
    push_report_lines(&mut res, &selection.tables, Relocation::Table(0), reencoder);
    push_report_lines(&mut res, &selection.globals, Relocation::Global(0), reencoder);
    push_report_lines(&mut res, &selection.memories, Relocation::Memory(0), reencoder);
    push_report_lines(&mut res, &selection.datas, Relocation::Data(0), reencoder);
    push_report_lines(&mut res, &selection.elems, Relocation::Elem(0), reencoder);
    push_report_lines(&mut res, &selection.tags, Relocation::Tag(0), reencoder);
    res
}

} // verus!
