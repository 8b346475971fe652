use wasm_isolate::operators::Operator;
use wasm_isolate::types::{
    AbstractHeapType, BlockType, Catch, HeapType, MemArg, RefType, TryTable, ValType,
};
use wasm_isolate::uses::{get_instr_uses, stack_switching, Uses};

/// The eight lists: types, functions, tables, globals, memories, data
/// segments, element segments, tags.
fn lists(uses: &Uses) -> [Vec<u32>; 8] {
    [
        uses.live_types.clone(),
        uses.live_funcs.clone(),
        uses.live_tables.clone(),
        uses.live_globals.clone(),
        uses.live_memories.clone(),
        uses.live_datas.clone(),
        uses.live_elems.clone(),
        uses.live_tags.clone(),
    ]
}

fn expect(instr: Operator, expected: [&[u32]; 8]) {
    let uses = get_instr_uses(&instr);
    let found = lists(&uses);
    for k in 0..8 {
        assert_eq!(found[k], expected[k].to_vec(), "list {} of {:?}", k, instr);
    }
}

const NONE: &[u32] = &[];

fn inert(instr: Operator) {
    expect(instr, [NONE; 8]);
}

fn reference(ty: u32) -> RefType {
    RefType { nullable: true, heap_type: HeapType::Concrete(ty) }
}

#[test]
fn instructions_without_an_item_use_nothing() {
    inert(Operator::Unreachable);
    inert(Operator::Nop);
    inert(Operator::Else);
    inert(Operator::End);
    inert(Operator::Br);
    inert(Operator::BrIf);
    inert(Operator::BrTable);
    inert(Operator::Return);
    inert(Operator::Drop);
    inert(Operator::Select);
    inert(Operator::LocalGet);
    inert(Operator::LocalSet);
    inert(Operator::LocalTee);
    inert(Operator::I32Const);
    inert(Operator::F64Const);
    inert(Operator::I32Add);
    inert(Operator::V128Const);
    inert(Operator::I8x16Shuffle);
    inert(Operator::F32x4ReplaceLane);
    inert(Operator::RefIsNull);
    inert(Operator::RefEq);
    inert(Operator::ArrayLen);
    inert(Operator::RefI31);
    inert(Operator::AtomicFence);
    inert(Operator::ThrowRef);
    inert(Operator::Rethrow);
    inert(Operator::Delegate);
    inert(Operator::CatchAll);
    inert(Operator::BrOnNull);
    inert(Operator::BrOnNonNull);
    inert(Operator::RefAsNonNull);
    inert(Operator::I64Add128);
    inert(Operator::I64MulWideU);
    inert(Operator::RefI31Shared);
}

#[test]
fn blocks_use_their_block_type() {
    let by_index = BlockType::FuncType(6);
    expect(Operator::Block { blockty: by_index }, [&[6], NONE, NONE, NONE, NONE, NONE, NONE, NONE]);
    expect(Operator::Loop { blockty: by_index }, [&[6], NONE, NONE, NONE, NONE, NONE, NONE, NONE]);
    expect(Operator::If { blockty: by_index }, [&[6], NONE, NONE, NONE, NONE, NONE, NONE, NONE]);
    expect(Operator::Try { blockty: by_index }, [&[6], NONE, NONE, NONE, NONE, NONE, NONE, NONE]);
    inert(Operator::Block { blockty: BlockType::Empty });
    inert(Operator::Loop { blockty: BlockType::Type(ValType::F32) });
    let result = BlockType::Type(ValType::Ref(reference(2)));
    expect(Operator::If { blockty: result }, [&[2], NONE, NONE, NONE, NONE, NONE, NONE, NONE]);
}

#[test]
fn calls() {
    let func: [&[u32]; 8] = [NONE, &[7], NONE, NONE, NONE, NONE, NONE, NONE];
    expect(Operator::Call { function_index: 7 }, func);
    expect(Operator::ReturnCall { function_index: 7 }, func);
    expect(Operator::RefFunc { function_index: 7 }, func);
    let indirect: [&[u32]; 8] = [&[3], NONE, &[1], NONE, NONE, NONE, NONE, NONE];
    expect(Operator::CallIndirect { type_index: 3, table_index: 1 }, indirect);
    expect(Operator::ReturnCallIndirect { type_index: 3, table_index: 1 }, indirect);
    let by_ref: [&[u32]; 8] = [&[3], NONE, NONE, NONE, NONE, NONE, NONE, NONE];
    expect(Operator::CallRef { type_index: 3 }, by_ref);
    expect(Operator::ReturnCallRef { type_index: 3 }, by_ref);
}

#[test]
fn globals_tables_and_memories() {
    let global: [&[u32]; 8] = [NONE, NONE, NONE, &[4], NONE, NONE, NONE, NONE];
    expect(Operator::GlobalGet { global_index: 4 }, global);
    expect(Operator::GlobalSet { global_index: 4 }, global);
    expect(Operator::GlobalAtomicGet { global_index: 4 }, global);
    expect(Operator::GlobalAtomicRmwCmpxchg { global_index: 4 }, global);

    let table: [&[u32]; 8] = [NONE, NONE, &[2], NONE, NONE, NONE, NONE, NONE];
    expect(Operator::TableGet { table: 2 }, table);
    expect(Operator::TableSet { table: 2 }, table);
    expect(Operator::TableGrow { table: 2 }, table);
    expect(Operator::TableSize { table: 2 }, table);
    expect(Operator::TableFill { table: 2 }, table);
    expect(Operator::TableAtomicGet { table_index: 2 }, table);
    expect(Operator::TableAtomicRmwXchg { table_index: 2 }, table);
    expect(
        Operator::TableCopy { dst_table: 5, src_table: 2 },
        [NONE, NONE, &[2, 5], NONE, NONE, NONE, NONE, NONE],
    );
    expect(
        Operator::TableCopy { dst_table: 2, src_table: 2 },
        [NONE, NONE, &[2], NONE, NONE, NONE, NONE, NONE],
    );
    expect(
        Operator::TableInit { elem_index: 9, table: 2 },
        [NONE, NONE, &[2], NONE, NONE, NONE, &[9], NONE],
    );
    expect(Operator::ElemDrop { elem_index: 9 }, [NONE, NONE, NONE, NONE, NONE, NONE, &[9], NONE]);

    let memory: [&[u32]; 8] = [NONE, NONE, NONE, NONE, &[1], NONE, NONE, NONE];
    let memarg = MemArg { memory: 1 };
    expect(Operator::MemorySize { mem: 1 }, memory);
    expect(Operator::MemoryGrow { mem: 1 }, memory);
    expect(Operator::MemoryFill { mem: 1 }, memory);
    expect(Operator::MemoryDiscard { mem: 1 }, memory);
    expect(Operator::I32Load { memarg }, memory);
    expect(Operator::F64Store { memarg }, memory);
    expect(Operator::I64Load32U { memarg }, memory);
    expect(Operator::MemoryAtomicNotify { memarg }, memory);
    expect(Operator::I64AtomicRmw32CmpxchgU { memarg }, memory);
    expect(Operator::V128Load { memarg }, memory);
    expect(Operator::V128Store64Lane { memarg }, memory);
    expect(
        Operator::MemoryCopy { dst_mem: 0, src_mem: 1 },
        [NONE, NONE, NONE, NONE, &[0, 1], NONE, NONE, NONE],
    );
    expect(
        Operator::MemoryInit { data_index: 6, mem: 1 },
        [NONE, NONE, NONE, NONE, &[1], &[6], NONE, NONE],
    );
    expect(Operator::DataDrop { data_index: 6 }, [NONE, NONE, NONE, NONE, NONE, &[6], NONE, NONE]);
}

#[test]
fn structs_and_arrays() {
    let ty: [&[u32]; 8] = [&[8], NONE, NONE, NONE, NONE, NONE, NONE, NONE];
    expect(Operator::StructNew { struct_type_index: 8 }, ty);
    expect(Operator::StructNewDefault { struct_type_index: 8 }, ty);
    expect(Operator::StructGet { struct_type_index: 8 }, ty);
    expect(Operator::StructGetS { struct_type_index: 8 }, ty);
    expect(Operator::StructGetU { struct_type_index: 8 }, ty);
    expect(Operator::StructSet { struct_type_index: 8 }, ty);
    expect(Operator::StructNewDesc { struct_type_index: 8 }, ty);
    expect(Operator::StructNewDefaultDesc { struct_type_index: 8 }, ty);
    expect(Operator::StructAtomicRmwAdd { struct_type_index: 8 }, ty);
    expect(Operator::RefGetDesc { type_index: 8 }, ty);
    expect(Operator::ArrayNew { array_type_index: 8 }, ty);
    expect(Operator::ArrayNewDefault { array_type_index: 8 }, ty);
    expect(Operator::ArrayNewFixed { array_type_index: 8 }, ty);
    expect(Operator::ArrayGet { array_type_index: 8 }, ty);
    expect(Operator::ArrayGetS { array_type_index: 8 }, ty);
    expect(Operator::ArrayGetU { array_type_index: 8 }, ty);
    expect(Operator::ArraySet { array_type_index: 8 }, ty);
    expect(Operator::ArrayFill { array_type_index: 8 }, ty);
    expect(Operator::ArrayAtomicGet { array_type_index: 8 }, ty);
    expect(Operator::ArrayAtomicRmwCmpxchg { array_type_index: 8 }, ty);
    expect(
        Operator::ArrayCopy { array_type_index_dst: 8, array_type_index_src: 3 },
        [&[3, 8], NONE, NONE, NONE, NONE, NONE, NONE, NONE],
    );
    let with_data: [&[u32]; 8] = [&[8], NONE, NONE, NONE, NONE, &[2], NONE, NONE];
    expect(Operator::ArrayNewData { array_type_index: 8, array_data_index: 2 }, with_data);
    expect(Operator::ArrayInitData { array_type_index: 8, array_data_index: 2 }, with_data);
    let with_elem: [&[u32]; 8] = [&[8], NONE, NONE, NONE, NONE, NONE, &[2], NONE];
    expect(Operator::ArrayNewElem { array_type_index: 8, array_elem_index: 2 }, with_elem);
    expect(Operator::ArrayInitElem { array_type_index: 8, array_elem_index: 2 }, with_elem);
}

#[test]
fn casts_and_reference_types() {
    let ty: [&[u32]; 8] = [&[5], NONE, NONE, NONE, NONE, NONE, NONE, NONE];
    let hty = HeapType::Concrete(5);
    expect(Operator::RefNull { hty }, ty);
    expect(Operator::RefTestNonNull { hty }, ty);
    expect(Operator::RefTestNullable { hty }, ty);
    expect(Operator::RefCastNonNull { hty }, ty);
    expect(Operator::RefCastNullable { hty }, ty);
    expect(Operator::RefCastDescEqNonNull { hty }, ty);
    expect(Operator::RefCastDescEqNullable { hty }, ty);
    inert(Operator::RefNull {
        hty: HeapType::Abstract { shared: false, ty: AbstractHeapType::Extern },
    });
    let both: [&[u32]; 8] = [&[1, 5], NONE, NONE, NONE, NONE, NONE, NONE, NONE];
    let from_ref_type = reference(5);
    let to_ref_type = reference(1);
    expect(Operator::BrOnCast { from_ref_type, to_ref_type }, both);
    expect(Operator::BrOnCastFail { from_ref_type, to_ref_type }, both);
    expect(Operator::BrOnCastDescEq { from_ref_type, to_ref_type }, both);
    expect(Operator::BrOnCastDescEqFail { from_ref_type, to_ref_type }, both);
    expect(Operator::TypedSelect { ty: ValType::Ref(reference(5)) }, ty);
    inert(Operator::TypedSelect { ty: ValType::I32 });
    expect(
        Operator::TypedSelectMulti {
            tys: vec![ValType::Ref(reference(5)), ValType::I64, ValType::Ref(reference(1))],
        },
        both,
    );
}

#[test]
fn exceptions() {
    let tag: [&[u32]; 8] = [NONE, NONE, NONE, NONE, NONE, NONE, NONE, &[3]];
    expect(Operator::Throw { tag_index: 3 }, tag);
    expect(Operator::Catch { tag_index: 3 }, tag);
    expect(
        Operator::TryTable {
            try_table: TryTable {
                ty: BlockType::FuncType(4),
                catches: vec![
                    Catch::One { tag: 3, label: 0 },
                    Catch::AllRef { label: 1 },
                    Catch::OneRef { tag: 0, label: 1 },
                ],
            },
        },
        [&[4], NONE, NONE, NONE, NONE, NONE, NONE, &[0, 3]],
    );
}

#[test]
fn stack_switching_is_not_walked() {
    let ops = vec![
        Operator::ContNew { cont_type_index: 1 },
        Operator::ContBind { argument_index: 1, result_index: 2 },
        Operator::Suspend { tag_index: 1 },
        Operator::Resume { cont_type_index: 1 },
        Operator::ResumeThrow { cont_type_index: 1, tag_index: 2 },
        Operator::ResumeThrowRef { cont_type_index: 1 },
        Operator::Switch { cont_type_index: 1, tag_index: 2 },
    ];
    for op in ops {
        assert!(stack_switching(&op));
        inert(op);
    }
    assert!(!stack_switching(&Operator::Nop));
    assert!(!stack_switching(&Operator::Throw { tag_index: 1 }));
    assert!(!stack_switching(&Operator::Call { function_index: 1 }));
}
