use wasm_isolate::emit::{DataEmit, ElemEmit, EmitSection, ExportEntry, ExportKind, GroupEmit};
use wasm_isolate::isolate::{isolate, report};
use wasm_isolate::module::{
    ConstExpr, Data, DataKind, Element, ElementItems, ElementKind, Export, ExternalKind, Func,
    Import, Module, Section, TypeRef,
};
use wasm_isolate::operators::Operator;
use wasm_isolate::reach::Selection;
use wasm_isolate::relocation::{ErrorKind, Relocation};
use wasm_isolate::types::{
    BlockType, CompositeInnerType, CompositeType, ContType, FieldType, FuncType, HeapType,
    MemoryType, RefType, StorageType, StructType, SubType, TableType, ValType,
};

fn selection() -> Selection {
    Selection {
        types: vec![],
        funcs: vec![],
        tables: vec![],
        globals: vec![],
        memories: vec![],
        datas: vec![],
        elems: vec![],
        tags: vec![],
    }
}

fn sub_type(inner: CompositeInnerType) -> SubType {
    SubType {
        is_final: true,
        supertype_idx: None,
        composite_type: CompositeType { inner, shared: false },
    }
}

fn func_type(params: Vec<ValType>, results: Vec<ValType>) -> SubType {
    sub_type(CompositeInnerType::Func(FuncType { params, results }))
}

fn memory_type() -> MemoryType {
    MemoryType { memory64: false, shared: false, initial: 1, maximum: None, page_size_log2: None }
}

fn funcref_table() -> TableType {
    TableType {
        element_type: RefType {
            nullable: true,
            heap_type: HeapType::Abstract {
                shared: false,
                ty: wasm_isolate::types::AbstractHeapType::Func,
            },
        },
        table64: false,
        initial: 1,
        maximum: None,
        shared: false,
    }
}

fn ref_to(ty: u32) -> ValType {
    ValType::Ref(RefType { nullable: true, heap_type: HeapType::Concrete(ty) })
}

fn body(m: &mut Module, instructions: Vec<Operator>) {
    m.code_entry(vec![], instructions).unwrap();
}

/// One function type; `f0` imported; `f1` and `f2` defined; `f2` calls
/// `f1`.
fn three_functions() -> Module {
    let mut m = Module::new();
    m.section(Section::Type);
    m.rec_group(false, vec![func_type(vec![], vec![])]).unwrap();
    m.section(Section::Import);
    m.import(Import { module: "env".to_string(), name: "f0".to_string(), ty: TypeRef::Func(0) })
        .unwrap();
    m.section(Section::Function);
    m.function(0);
    m.function(0);
    m.section(Section::Export);
    m.export(Export { name: "two".to_string(), kind: ExternalKind::Func, index: 2 });
    m.export(Export { name: "zero".to_string(), kind: ExternalKind::Func, index: 0 });
    m.section(Section::Code);
    body(&mut m, vec![Operator::End]);
    body(&mut m, vec![Operator::Call { function_index: 1 }, Operator::End]);
    m
}

#[test]
fn selected_function_keeps_its_callee() {
    let m = three_functions();
    let mut sel = selection();
    sel.funcs = vec![2];
    let out = isolate(&m, &sel).unwrap();
    let live = out.reencoder.live_items();
    assert_eq!(live.live_funcs, vec![1, 2]);
    assert_eq!(live.live_types, vec![0]);
    assert_eq!(out.reencoder.get(Relocation::Func(0)), None);
    assert_eq!(out.reencoder.get(Relocation::Func(1)), Some(0));
    assert_eq!(out.reencoder.get(Relocation::Func(2)), Some(1));
    assert_eq!(out.reencoder.function_index(1), 0);
    assert_eq!(out.reencoder.function_index(2), 1);
    assert_eq!(
        out.sections,
        vec![
            EmitSection::Type(vec![GroupEmit { rec: false, members: vec![0] }]),
            EmitSection::Import(vec![]),
            EmitSection::Function(vec![0, 0]),
            EmitSection::Export(vec![
                ExportEntry { name: "two".to_string(), kind: ExportKind::Func, index: 1 },
                ExportEntry {
                    name: "isolated_func_2".to_string(),
                    kind: ExportKind::Func,
                    index: 1
                },
            ]),
            EmitSection::Code(vec![1, 2]),
        ]
    );
}

#[test]
fn selected_function_with_preserved_import() {
    let m = three_functions();
    let mut sel = selection();
    sel.funcs = vec![0, 2];
    let out = isolate(&m, &sel).unwrap();
    assert_eq!(out.reencoder.live_items().live_funcs, vec![0, 1, 2]);
    assert_eq!(out.reencoder.get(Relocation::Func(1)), Some(1));
    assert_eq!(out.reencoder.get(Relocation::Func(2)), Some(2));
    assert_eq!(out.sections[1], EmitSection::Import(vec![0]));
    assert_eq!(out.sections[2], EmitSection::Function(vec![0, 0]));
    assert_eq!(
        out.sections[3],
        EmitSection::Export(vec![
            ExportEntry { name: "two".to_string(), kind: ExportKind::Func, index: 2 },
            ExportEntry { name: "zero".to_string(), kind: ExportKind::Func, index: 0 },
            ExportEntry { name: "isolated_func_0".to_string(), kind: ExportKind::Func, index: 0 },
            ExportEntry { name: "isolated_func_2".to_string(), kind: ExportKind::Func, index: 2 },
        ])
    );
    assert_eq!(out.sections[4], EmitSection::Code(vec![1, 2]));
}

#[test]
fn start_function_is_no_seed() {
    let mut m = Module::new();
    m.section(Section::Type);
    m.rec_group(false, vec![func_type(vec![], vec![])]).unwrap();
    m.section(Section::Function);
    for _ in 0..4 {
        m.function(0);
    }
    m.section(Section::Start);
    m.start(0);
    m.section(Section::Code);
    body(
        &mut m,
        vec![
            Operator::Call { function_index: 1 },
            Operator::Call { function_index: 2 },
            Operator::Call { function_index: 3 },
            Operator::End,
        ],
    );
    body(&mut m, vec![Operator::End]);
    body(&mut m, vec![Operator::End]);
    body(&mut m, vec![Operator::End]);
    let out = isolate(&m, &selection()).unwrap();
    assert!(out.reencoder.live_items().live_funcs.is_empty());
    assert!(out.reencoder.live_items().live_types.is_empty());
    assert_eq!(
        out.sections,
        vec![
            EmitSection::Type(vec![]),
            EmitSection::Function(vec![]),
            EmitSection::Start(None),
            EmitSection::Code(vec![]),
        ]
    );
}

#[test]
fn start_section_is_kept_when_start_is_live() {
    let mut m = Module::new();
    m.section(Section::Type);
    m.rec_group(false, vec![func_type(vec![], vec![])]).unwrap();
    m.section(Section::Function);
    m.function(0);
    m.function(0);
    m.section(Section::Start);
    m.start(1);
    m.section(Section::Code);
    body(&mut m, vec![Operator::End]);
    body(&mut m, vec![Operator::End]);
    let mut sel = selection();
    sel.funcs = vec![1];
    let out = isolate(&m, &sel).unwrap();
    assert_eq!(out.sections[2], EmitSection::Start(Some(0)));
}

#[test]
fn single_survivor_of_recursive_group() {
    let mut m = Module::new();
    m.section(Section::Type);
    let a = sub_type(CompositeInnerType::Struct(StructType {
        fields: vec![FieldType { element_type: StorageType::Val(ref_to(1)), mutable: false }],
    }));
    let b = func_type(vec![ValType::I32], vec![]);
    m.rec_group(true, vec![a, b]).unwrap();
    m.section(Section::Function);
    m.function(1);
    m.section(Section::Code);
    body(&mut m, vec![Operator::End]);
    let mut sel = selection();
    sel.funcs = vec![0];
    let out = isolate(&m, &sel).unwrap();
    assert_eq!(out.reencoder.live_items().live_types, vec![1]);
    assert_eq!(out.reencoder.type_index(1), 0);
    assert_eq!(
        out.sections[0],
        EmitSection::Type(vec![GroupEmit { rec: true, members: vec![1] }])
    );
    assert_eq!(out.sections[1], EmitSection::Function(vec![0]));
}

#[test]
fn group_forms() {
    let mut m = Module::new();
    m.section(Section::Type);
    m.rec_group(false, vec![func_type(vec![], vec![])]).unwrap();
    m.rec_group(true, vec![func_type(vec![], vec![])]).unwrap();
    m.rec_group(true, vec![func_type(vec![], vec![]), func_type(vec![], vec![])]).unwrap();
    m.rec_group(true, vec![]).unwrap();
    m.rec_group(true, vec![func_type(vec![], vec![]), func_type(vec![], vec![])]).unwrap();
    let mut sel = selection();
    sel.types = vec![0, 1, 2, 3];
    let out = isolate(&m, &sel).unwrap();
    assert_eq!(
        out.sections[0],
        EmitSection::Type(vec![
            GroupEmit { rec: false, members: vec![0] },
            GroupEmit { rec: false, members: vec![1] },
            GroupEmit { rec: true, members: vec![2, 3] },
        ])
    );
}

#[test]
fn active_data_segment_keeps_its_memory() {
    let mut m = Module::new();
    m.section(Section::Memory);
    for _ in 0..8 {
        m.memory(memory_type());
    }
    m.section(Section::DataCount);
    m.section(Section::Data);
    m.data(Data {
        kind: DataKind::Active {
            memory_index: 7,
            offset_expr: ConstExpr { ops: vec![Operator::I32Const, Operator::End] },
        },
    });
    m.data(Data { kind: DataKind::Passive });
    let mut sel = selection();
    sel.datas = vec![0];
    let out = isolate(&m, &sel).unwrap();
    assert_eq!(out.reencoder.live_items().live_memories, vec![7]);
    assert_eq!(out.reencoder.live_items().live_datas, vec![0]);
    assert_eq!(
        out.sections,
        vec![
            EmitSection::Memory(vec![memory_type()]),
            EmitSection::DataCount(1),
            EmitSection::Data(vec![DataEmit { index: 0, memory: Some(0) }]),
        ]
    );
    assert_eq!(out.reencoder.memory_index(7), 0);
}

#[test]
fn passive_data_segment_has_no_memory() {
    let mut m = Module::new();
    m.section(Section::Memory);
    m.memory(memory_type());
    m.section(Section::Data);
    m.data(Data { kind: DataKind::Passive });
    m.data(Data { kind: DataKind::Passive });
    let mut sel = selection();
    sel.datas = vec![1];
    let out = isolate(&m, &sel).unwrap();
    assert!(out.reencoder.live_items().live_memories.is_empty());
    assert_eq!(out.sections[0], EmitSection::Memory(vec![]));
    assert_eq!(out.sections[1], EmitSection::Data(vec![DataEmit { index: 1, memory: None }]));
}

#[test]
fn out_of_range_selection_is_reported_and_ignored() {
    let m = three_functions();
    let mut sel = selection();
    sel.funcs = vec![2, 17];
    sel.types = vec![5];
    sel.datas = vec![0];
    sel.elems = vec![1];
    let out = isolate(&m, &sel).unwrap();
    assert_eq!(out.reencoder.live_items().live_funcs, vec![1, 2]);
    assert_eq!(
        report(&sel, &out.reencoder),
        vec![
            "Success! The requested items are now located at these indices:".to_string(),
            "  Type 5 was out of range and therefore ignored.".to_string(),
            "  Func 2 -> 1".to_string(),
            "  Func 17 was out of range and therefore ignored.".to_string(),
            "  Data segment 0 was out of range and therefore ignored.".to_string(),
            "  Elem segment 1 was out of range and therefore ignored.".to_string(),
        ]
    );
}

#[test]
fn call_indirect_keeps_type_table_and_signature_types() {
    let mut m = Module::new();
    m.section(Section::Type);
    // type 0: the struct that the signature of type 1 mentions
    m.rec_group(
        false,
        vec![sub_type(CompositeInnerType::Struct(StructType {
            fields: vec![FieldType { element_type: StorageType::I8, mutable: true }],
        }))],
    )
    .unwrap();
    // type 1: $T
    m.rec_group(false, vec![func_type(vec![ref_to(0)], vec![ValType::I32])]).unwrap();
    // type 2: the type of the selected function
    m.rec_group(false, vec![func_type(vec![], vec![])]).unwrap();
    // type 3: unused
    m.rec_group(false, vec![func_type(vec![ValType::I64], vec![])]).unwrap();
    m.section(Section::Function);
    m.function(2);
    m.section(Section::Table);
    for _ in 0..3 {
        m.table(wasm_isolate::module::Table {
            ty: funcref_table(),
            init: wasm_isolate::module::TableInit::RefNull,
        });
    }
    m.section(Section::Code);
    body(
        &mut m,
        vec![Operator::CallIndirect { type_index: 1, table_index: 2 }, Operator::End],
    );
    let mut sel = selection();
    sel.funcs = vec![0];
    let out = isolate(&m, &sel).unwrap();
    let live = out.reencoder.live_items();
    assert_eq!(live.live_types, vec![0, 1, 2]);
    assert_eq!(live.live_tables, vec![2]);
    assert_eq!(live.live_funcs, vec![0]);
    assert_eq!(out.reencoder.table_index(2), 0);
    assert_eq!(out.reencoder.type_index(2), 2);
    assert_eq!(out.reencoder.type_index(3), 3);
    assert_eq!(out.sections[2], EmitSection::Table(vec![2]));
}

#[test]
fn element_segment_keeps_functions_and_table() {
    let mut m = three_functions();
    m.section(Section::Table);
    m.table(wasm_isolate::module::Table {
        ty: funcref_table(),
        init: wasm_isolate::module::TableInit::RefNull,
    });
    m.table(wasm_isolate::module::Table {
        ty: funcref_table(),
        init: wasm_isolate::module::TableInit::RefNull,
    });
    m.section(Section::Element);
    m.element(Element {
        kind: ElementKind::Active {
            table_index: Some(1),
            offset_expr: ConstExpr { ops: vec![Operator::I32Const, Operator::End] },
        },
        items: ElementItems::Functions(vec![2, 0, 2]),
    });
    m.element(Element {
        kind: ElementKind::Active {
            table_index: None,
            offset_expr: ConstExpr { ops: vec![Operator::I32Const, Operator::End] },
        },
        items: ElementItems::Expressions(
            RefType {
                nullable: true,
                heap_type: HeapType::Abstract {
                    shared: false,
                    ty: wasm_isolate::types::AbstractHeapType::Func,
                },
            },
            vec![ConstExpr { ops: vec![Operator::RefFunc { function_index: 1 }, Operator::End] }],
        ),
    });
    m.element(Element { kind: ElementKind::Declared, items: ElementItems::Functions(vec![]) });
    let mut sel = selection();
    sel.elems = vec![0];
    let out = isolate(&m, &sel).unwrap();
    let live = out.reencoder.live_items();
    assert_eq!(live.live_elems, vec![0]);
    assert_eq!(live.live_funcs, vec![0, 1, 2]);
    assert_eq!(live.live_tables, vec![1]);
    assert_eq!(
        out.sections.last().unwrap(),
        &EmitSection::Element(vec![ElemEmit { index: 0, table: Some(0) }])
    );

    let mut sel = selection();
    sel.elems = vec![2, 1];
    let out = isolate(&m, &sel).unwrap();
    let live = out.reencoder.live_items();
    assert_eq!(live.live_elems, vec![1, 2]);
    assert_eq!(live.live_funcs, vec![1]);
    assert_eq!(live.live_tables, vec![0]);
    assert_eq!(
        out.sections.last().unwrap(),
        &EmitSection::Element(vec![
            ElemEmit { index: 1, table: None },
            ElemEmit { index: 2, table: None },
        ])
    );
}

#[test]
fn custom_sections_pass_through_in_place_and_name_is_dropped() {
    let mut m = Module::new();
    m.custom_section("producers", vec![9, 1, 2, 3]);
    m.section(Section::Type);
    m.rec_group(false, vec![func_type(vec![], vec![])]).unwrap();
    m.custom_section("name", vec![4, 110, 97, 109, 101, 0]);
    m.section(Section::Function);
    m.function(0);
    m.custom_section("", vec![0]);
    m.section(Section::Code);
    body(&mut m, vec![Operator::End]);
    m.custom_section("names", vec![5, 5]);
    assert_eq!(m.sections.len(), 6);
    let out = isolate(&m, &selection()).unwrap();
    assert_eq!(
        out.sections,
        vec![
            EmitSection::Passthrough { id: 0, data: vec![9, 1, 2, 3] },
            EmitSection::Type(vec![]),
            EmitSection::Function(vec![]),
            EmitSection::Passthrough { id: 0, data: vec![0] },
            EmitSection::Code(vec![]),
            EmitSection::Passthrough { id: 0, data: vec![5, 5] },
        ]
    );
}

#[test]
fn full_selection_keeps_every_index() {
    let m = three_functions();
    let mut sel = selection();
    sel.funcs = vec![0, 1, 2];
    let out = isolate(&m, &sel).unwrap();
    for i in 0..3 {
        assert_eq!(out.reencoder.get(Relocation::Func(i)), Some(i));
    }
    match &out.sections[3] {
        EmitSection::Export(entries) => {
            let names: Vec<&str> = entries.iter().map(|e| e.name.as_str()).collect();
            assert_eq!(
                names,
                vec!["two", "zero", "isolated_func_0", "isolated_func_1", "isolated_func_2"]
            );
        }
        other => panic!("unexpected section {:?}", other),
    }
}

#[test]
fn repeated_selection_adds_one_export() {
    let m = three_functions();
    let mut sel = selection();
    sel.funcs = vec![1, 1, 1];
    let out = isolate(&m, &sel).unwrap();
    assert_eq!(
        out.sections[3],
        EmitSection::Export(vec![ExportEntry {
            name: "isolated_func_1".to_string(),
            kind: ExportKind::Func,
            index: 0
        }])
    );
}

#[test]
fn malformed_module_is_a_parse_error() {
    // a call to a function that the module does not have
    let mut m = three_functions();
    m.defined_funcs[0].instructions = vec![Operator::Call { function_index: 3 }];
    let err = isolate(&m, &selection()).err().unwrap();
    assert_eq!(err.kind, ErrorKind::Parse);
    assert_eq!(err.item, None);

    // a body without an entry in the function section
    let mut m = three_functions();
    assert_eq!(m.code_entry(vec![], vec![]).err().unwrap().kind, ErrorKind::Parse);
    m.defined_funcs.push(Func { type_idx: 0, locals: vec![], instructions: vec![] });
    assert_eq!(isolate(&m, &selection()).err().unwrap().kind, ErrorKind::Parse);

    // an export of a table that the module does not have
    let mut m = three_functions();
    m.export(Export { name: "t".to_string(), kind: ExternalKind::Table, index: 0 });
    assert_eq!(isolate(&m, &selection()).err().unwrap().kind, ErrorKind::Parse);

    // a start function that the module does not have
    let mut m = three_functions();
    m.start(3);
    assert_eq!(isolate(&m, &selection()).err().unwrap().kind, ErrorKind::Parse);

    // a group of two types that is not marked as recursive
    let mut m = Module::new();
    m.rec_group(false, vec![func_type(vec![], vec![]), func_type(vec![], vec![])]).unwrap();
    assert_eq!(isolate(&m, &selection()).err().unwrap().kind, ErrorKind::Parse);
}

#[test]
fn continuation_constructs_are_unsupported_where_reached() {
    let mut m = Module::new();
    m.section(Section::Type);
    m.rec_group(false, vec![func_type(vec![], vec![])]).unwrap();
    m.rec_group(false, vec![sub_type(CompositeInnerType::Cont(ContType(0)))]).unwrap();
    m.section(Section::Function);
    m.function(0);
    m.function(0);
    m.function(0);
    m.section(Section::Code);
    body(&mut m, vec![Operator::End]);
    body(&mut m, vec![Operator::ContNew { cont_type_index: 1 }, Operator::End]);
    body(&mut m, vec![Operator::Call { function_index: 1 }, Operator::End]);

    let mut sel = selection();
    sel.funcs = vec![0];
    assert!(isolate(&m, &sel).is_ok());

    sel.funcs = vec![2];
    let err = isolate(&m, &sel).err().unwrap();
    assert_eq!(err.kind, ErrorKind::UnsupportedConstruct);
    assert_eq!(err.item, Some(Relocation::Func(1)));

    let mut sel = selection();
    sel.types = vec![1];
    let err = isolate(&m, &sel).err().unwrap();
    assert_eq!(err.kind, ErrorKind::UnsupportedConstruct);
    assert_eq!(err.item, Some(Relocation::Type(1)));
}

#[test]
fn block_types_and_locals_are_walked() {
    let mut m = Module::new();
    m.section(Section::Type);
    for _ in 0..5 {
        m.rec_group(false, vec![func_type(vec![], vec![])]).unwrap();
    }
    m.section(Section::Function);
    m.function(0);
    m.section(Section::Code);
    m.code_entry(
        vec![(2, ValType::I32), (1, ref_to(4))],
        vec![
            Operator::Block { blockty: BlockType::FuncType(2) },
            Operator::LocalGet,
            Operator::Br,
            Operator::End,
            Operator::End,
        ],
    )
    .unwrap();
    let mut sel = selection();
    sel.funcs = vec![0];
    let out = isolate(&m, &sel).unwrap();
    assert_eq!(out.reencoder.live_items().live_types, vec![0, 2, 4]);
    assert_eq!(out.reencoder.type_index(0), 0);
    assert_eq!(out.reencoder.type_index(2), 1);
    assert_eq!(out.reencoder.type_index(4), 2);
    // an index that is not live passes through unchanged
    assert_eq!(out.reencoder.type_index(3), 3);
    assert_eq!(out.reencoder.type_index(1000), 1000);
}
