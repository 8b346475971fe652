//! The sections that the plan determines completely, built with the
//! encoder.

use crate::emit::{export_views, ExportEntry, ExportKind};
use crate::relocation::{Error, ErrorKind};
use crate::types::{MemoryType, TagKind, TagType};
use vstd::prelude::*;
use vstd::utf8::encode_utf8;

verus! {

/// The export section of the encoder.
#[verifier::external_type_specification]
#[verifier::external_body]
pub struct ExExportSection(wasm_encoder::ExportSection);

/// The function section of the encoder.
#[verifier::external_type_specification]
#[verifier::external_body]
pub struct ExFunctionSection(wasm_encoder::FunctionSection);

/// The memory section of the encoder.
#[verifier::external_type_specification]
#[verifier::external_body]
pub struct ExMemorySection(wasm_encoder::MemorySection);

/// The tag section of the encoder.
#[verifier::external_type_specification]
#[verifier::external_body]
pub struct ExTagSection(wasm_encoder::TagSection);

/// The exports that were added to an export section, in the order in
/// which they were added: name, kind and index of each.
pub uninterp spec fn exported(section: wasm_encoder::ExportSection) -> Seq<(Seq<char>, ExportKind, u32)>;

/// The type indices that were added to a function section, in the order
/// in which they were added.
pub uninterp spec fn declared(section: wasm_encoder::FunctionSection) -> Seq<u32>;

/// The memory types that were added to a memory section, in the order in
/// which they were added.
pub uninterp spec fn memories_of(section: wasm_encoder::MemorySection) -> Seq<MemoryType>;

/// The tag types that were added to a tag section, in the order in which
/// they were added.
pub uninterp spec fn tags_of(section: wasm_encoder::TagSection) -> Seq<TagType>;

/// Calls `wasm_encoder::ExportSection::new`, which gives a section that
/// no export was added to.
#[verifier::external_body]
fn new_export_section() -> (res: wasm_encoder::ExportSection)
    ensures
        exported(res) == Seq::<(Seq<char>, ExportKind, u32)>::empty(),
{
    wasm_encoder::ExportSection::new()
}

/// Calls `wasm_encoder::ExportSection::export`, which adds one export
/// after those that the section holds. The encoder counts the exports
/// with 32 bits and writes the length of the name, in bytes, with 32
/// bits.
#[verifier::external_body]
fn add_export(section: &mut wasm_encoder::ExportSection, name: &str, kind: ExportKind, index: u32)
    requires
        exported(*old(section)).len() < u32::MAX,
        encode_utf8(name@).len() <= u32::MAX,
    ensures
        exported(*final(section)) == exported(*old(section)).push((name@, kind, index)),
{
    let kind = match kind {
        ExportKind::Func => wasm_encoder::ExportKind::Func,
        ExportKind::Table => wasm_encoder::ExportKind::Table,
        ExportKind::Memory => wasm_encoder::ExportKind::Memory,
        ExportKind::Global => wasm_encoder::ExportKind::Global,
        ExportKind::Tag => wasm_encoder::ExportKind::Tag,
    };
    section.export(name, kind, index);
}

/// Calls `wasm_encoder::FunctionSection::new`, which gives a section that
/// no type index was added to.
#[verifier::external_body]
fn new_function_section() -> (res: wasm_encoder::FunctionSection)
    ensures
        declared(res) == Seq::<u32>::empty(),
{
    wasm_encoder::FunctionSection::new()
}

/// Calls `wasm_encoder::FunctionSection::function`, which adds the type
/// index of one function after those that the section holds. The encoder
/// counts the functions with 32 bits.
#[verifier::external_body]
fn add_function(section: &mut wasm_encoder::FunctionSection, type_index: u32)
    requires
        declared(*old(section)).len() < u32::MAX,
    ensures
        declared(*final(section)) == declared(*old(section)).push(type_index),
{
    section.function(type_index);
}

/// Calls `wasm_encoder::MemorySection::new`, which gives a section that no
/// memory type was added to.
#[verifier::external_body]
fn new_memory_section() -> (res: wasm_encoder::MemorySection)
    ensures
        memories_of(res) == Seq::<MemoryType>::empty(),
{
    wasm_encoder::MemorySection::new()
}

/// Calls `wasm_encoder::MemorySection::memory`, which adds the type of one
/// memory after those that the section holds. The encoder counts the
/// memories with 32 bits.
#[verifier::external_body]
fn add_memory(section: &mut wasm_encoder::MemorySection, ty: MemoryType)
    requires
        memories_of(*old(section)).len() < u32::MAX,
    ensures
        memories_of(*final(section)) == memories_of(*old(section)).push(ty),
{
    section.memory(
        wasm_encoder::MemoryType {
            minimum: ty.initial,
            maximum: ty.maximum,
            memory64: ty.memory64,
            shared: ty.shared,
            page_size_log2: ty.page_size_log2,
        },
    );
}

/// Calls `wasm_encoder::TagSection::new`, which gives a section that no
/// tag type was added to.
#[verifier::external_body]
fn new_tag_section() -> (res: wasm_encoder::TagSection)
    ensures
        tags_of(res) == Seq::<TagType>::empty(),
{
    wasm_encoder::TagSection::new()
}

/// Calls `wasm_encoder::TagSection::tag`, which adds the type of one tag
/// after those that the section holds. The encoder counts the tags with
/// 32 bits.
#[verifier::external_body]
fn add_tag(section: &mut wasm_encoder::TagSection, ty: TagType)
    requires
        tags_of(*old(section)).len() < u32::MAX,
    ensures
        tags_of(*final(section)) == tags_of(*old(section)).push(ty),
{
    let kind = match ty.kind {
        TagKind::Exception => wasm_encoder::TagKind::Exception,
    };
    section.tag(wasm_encoder::TagType { kind, func_type_idx: ty.func_type_idx });
}

/// The exports can be written: they are no more than 32 bits can count,
/// and the length of each name in bytes fits in 32 bits.
pub open spec fn exports_fit(entries: Seq<ExportEntry>) -> bool {
    &&& entries.len() <= u32::MAX
    &&& forall|k: int|
        0 <= k < entries.len() ==> encode_utf8((#[trigger] entries[k]).name@).len() <= u32::MAX
}

/// The export section that holds the given exports, in their order. It
/// fails if the exports cannot be written.
pub fn export_section(entries: &Vec<ExportEntry>) -> (res: Result<
    wasm_encoder::ExportSection,
    Error,
>)
    ensures
        res is Ok <==> exports_fit(entries@),
        res matches Ok(section) ==> exported(section) == export_views(entries@),
        res matches Err(e) ==> e.kind == ErrorKind::Encode && e.item is None,
{
    if entries.len() > 0xffff_ffff {
        return Err(Error { kind: ErrorKind::Encode, item: None });
    }
    let mut section = new_export_section();
    let mut k: usize = 0;
    while k < entries.len()
        invariant
            0 <= k <= entries.len() <= u32::MAX,
            exported(section) == export_views(entries@.subrange(0, k as int)),
            forall|i: int|
                0 <= i < k ==> encode_utf8((#[trigger] entries@[i]).name@).len() <= u32::MAX,
        decreases entries.len() - k,
    {
        let entry = &entries[k];
        let name = entry.name.as_str();
        if name.as_bytes().len() > 0xffff_ffff {
            return Err(Error { kind: ErrorKind::Encode, item: None });
        }
        add_export(&mut section, name, entry.kind, entry.index);
        proof {
            assert(export_views(entries@.subrange(0, k + 1)) =~= export_views(
                entries@.subrange(0, k as int),
            ).push(entry@));
        }
        k += 1;
    }
    proof {
        assert(entries@.subrange(0, entries.len() as int) =~= entries@);
    }
    Ok(section)
}

/// The function section that holds the given type indices, in their
/// order. It fails if they are more than 32 bits can count.
pub fn function_section(types: &Vec<u32>) -> (res: Result<wasm_encoder::FunctionSection, Error>)
    ensures
        res is Ok <==> types@.len() <= u32::MAX,
        res matches Ok(section) ==> declared(section) == types@,
        res matches Err(e) ==> e.kind == ErrorKind::Encode && e.item is None,
{
    if types.len() > 0xffff_ffff {
        return Err(Error { kind: ErrorKind::Encode, item: None });
    }
    let mut section = new_function_section();
    let mut k: usize = 0;
    while k < types.len()
        invariant
            0 <= k <= types.len() <= u32::MAX,
            declared(section) == types@.subrange(0, k as int),
        decreases types.len() - k,
    {
        add_function(&mut section, types[k]);
        proof {
            assert(types@.subrange(0, k + 1) =~= types@.subrange(0, k as int).push(
                types@[k as int],
            ));
        }
        k += 1;
    }
    proof {
        assert(types@.subrange(0, types.len() as int) =~= types@);
    }
    Ok(section)
}

/// The memory section that holds the given memory types, in their order.
/// It fails if they are more than 32 bits can count.
pub fn memory_section(types: &Vec<MemoryType>) -> (res: Result<wasm_encoder::MemorySection, Error>)
    ensures
        res is Ok <==> types@.len() <= u32::MAX,
        res matches Ok(section) ==> memories_of(section) == types@,
        res matches Err(e) ==> e.kind == ErrorKind::Encode && e.item is None,
{
    if types.len() > 0xffff_ffff {
        return Err(Error { kind: ErrorKind::Encode, item: None });
    }
    let mut section = new_memory_section();
    let mut k: usize = 0;
    while k < types.len()
        invariant
            0 <= k <= types.len() <= u32::MAX,
            memories_of(section) == types@.subrange(0, k as int),
        decreases types.len() - k,
    {
        add_memory(&mut section, types[k]);
        proof {
            assert(types@.subrange(0, k + 1) =~= types@.subrange(0, k as int).push(
                types@[k as int],
            ));
        }
        k += 1;
    }
    proof {
        assert(types@.subrange(0, types.len() as int) =~= types@);
    }
    Ok(section)
}

/// The tag section that holds the given tag types, in their order. It
/// fails if they are more than 32 bits can count.
pub fn tag_section(types: &Vec<TagType>) -> (res: Result<wasm_encoder::TagSection, Error>)
    ensures
        res is Ok <==> types@.len() <= u32::MAX,
        res matches Ok(section) ==> tags_of(section) == types@,
        res matches Err(e) ==> e.kind == ErrorKind::Encode && e.item is None,
{
    if types.len() > 0xffff_ffff {
        return Err(Error { kind: ErrorKind::Encode, item: None });
    }
    let mut section = new_tag_section();
    let mut k: usize = 0;
    while k < types.len()
        invariant
            0 <= k <= types.len() <= u32::MAX,
            tags_of(section) == types@.subrange(0, k as int),
        decreases types.len() - k,
    {
        add_tag(&mut section, types[k]);
        proof {
            assert(types@.subrange(0, k + 1) =~= types@.subrange(0, k as int).push(
                types@[k as int],
            ));
        }
        k += 1;
    }
    proof {
        assert(types@.subrange(0, types.len() as int) =~= types@);
    }
    Ok(section)
}

} // verus!
