use wasm_isolate::bridge::is_name_section;
use wasm_isolate::check::{below, exported_item, imports_of};
use wasm_isolate::emit::{
    defined_live, emit_datas, emit_elements, emit_exports, emit_functions, emit_imports,
    emit_memories, emit_section, emit_sections, emit_start, emit_tags, emit_types, live_range,
    EmitSection, GroupEmit,
};
use wasm_isolate::module::{
    get_constexpr_uses, get_constexprs_uses, get_data_kind_uses, get_element_items_uses,
    get_element_kind_uses, get_func_body_uses, get_funcs_uses, get_instrs_uses, get_locals_uses,
    get_table_init_uses, ConstExpr, Data, DataKind, Element, ElementItems, ElementKind, Export,
    ExternalKind, Func, Global, Import, Module, Section, Table, TableInit, TypeRef,
};
use wasm_isolate::operators::Operator;
use wasm_isolate::reach::{any_expr_stack_switching, any_stack_switching, find_live, Selection};
use wasm_isolate::relocation::{ErrorKind, RelocatingReencoder, Relocation};
use wasm_isolate::types::{
    AbstractHeapType, CompositeInnerType, CompositeType, ContType, FuncType, GlobalType, HeapType,
    MemoryType, RefType, SubType, TableType, TagKind, TagType, ValType,
};
use wasm_isolate::uses::Uses;

fn lists(uses: &Uses) -> [Vec<u32>; 8] {
    [
        uses.live_types.clone(),
        uses.live_funcs.clone(),
        uses.live_tables.clone(),
        uses.live_globals.clone(),
        uses.live_memories.clone(),
        uses.live_datas.clone(),
        uses.live_elems.clone(),
        uses.live_tags.clone(),
    ]
}

const NONE: &[u32] = &[];

fn expect(uses: Uses, expected: [&[u32]; 8]) {
    let found = lists(&uses);
    for k in 0..8 {
        assert_eq!(found[k], expected[k].to_vec(), "list {}", k);
    }
}

fn selection() -> Selection {
    Selection {
        types: vec![],
        funcs: vec![],
        tables: vec![],
        globals: vec![],
        memories: vec![],
        datas: vec![],
        elems: vec![],
        tags: vec![],
    }
}

fn func_type(params: Vec<ValType>) -> SubType {
    SubType {
        is_final: true,
        supertype_idx: None,
        composite_type: CompositeType {
            inner: CompositeInnerType::Func(FuncType { params, results: vec![] }),
            shared: false,
        },
    }
}

fn reference(ty: u32) -> RefType {
    RefType { nullable: true, heap_type: HeapType::Concrete(ty) }
}

fn funcref() -> RefType {
    RefType {
        nullable: true,
        heap_type: HeapType::Abstract { shared: false, ty: AbstractHeapType::Func },
    }
}

fn table_type(element_type: RefType) -> TableType {
    TableType { element_type, table64: false, initial: 0, maximum: None, shared: false }
}

fn memory_type() -> MemoryType {
    MemoryType { memory64: false, shared: false, initial: 0, maximum: None, page_size_log2: None }
}

fn tag(func_type_idx: u32) -> TagType {
    TagType { kind: TagKind::Exception, func_type_idx }
}

fn expr(ops: Vec<Operator>) -> ConstExpr {
    ConstExpr { ops }
}

fn import(ty: TypeRef) -> Import {
    Import { module: "env".to_string(), name: "x".to_string(), ty }
}

/// A module with items of every kind:
/// types 0..=4; functions 0 and 1 imported, 2 and 3 defined; tables 0
/// imported, 1 and 2 defined; memories 0 imported, 1 defined; globals 0
/// imported, 1 and 2 defined; tags 0 imported, 1 defined; two element
/// segments and two data segments.
fn everything() -> Module {
    let mut m = Module::new();
    m.custom_section("first", vec![1]);
    m.section(Section::Type);
    m.rec_group(false, vec![func_type(vec![])]).unwrap();
    m.rec_group(false, vec![func_type(vec![ValType::Ref(reference(0))])]).unwrap();
    m.rec_group(true, vec![func_type(vec![]), func_type(vec![ValType::Ref(reference(2))])])
        .unwrap();
    m.rec_group(false, vec![func_type(vec![ValType::I32])]).unwrap();
    m.section(Section::Import);
    m.import(import(TypeRef::Func(0))).unwrap();
    m.import(import(TypeRef::Table(table_type(funcref())))).unwrap();
    m.import(import(TypeRef::Memory(memory_type()))).unwrap();
    m.import(import(TypeRef::FuncExact(1))).unwrap();
    m.import(import(TypeRef::Global(GlobalType {
        content_type: ValType::I32,
        mutable: false,
        shared: false,
    })))
    .unwrap();
    m.import(import(TypeRef::Tag(tag(4)))).unwrap();
    m.section(Section::Function);
    m.function(3);
    m.function(0);
    m.section(Section::Table);
    m.table(Table { ty: table_type(reference(3)), init: TableInit::RefNull });
    m.table(Table {
        ty: table_type(funcref()),
        init: TableInit::Expr(expr(vec![Operator::RefFunc { function_index: 3 }, Operator::End])),
    });
    m.section(Section::Memory);
    m.memory(memory_type());
    m.section(Section::Tag);
    m.tag(tag(0));
    m.section(Section::Global);
    m.global(Global {
        ty: GlobalType { content_type: ValType::I32, mutable: false, shared: false },
        init_expr: expr(vec![Operator::GlobalGet { global_index: 0 }, Operator::End]),
    });
    m.global(Global {
        ty: GlobalType { content_type: ValType::Ref(reference(4)), mutable: true, shared: false },
        init_expr: expr(vec![Operator::RefNull { hty: HeapType::Concrete(4) }, Operator::End]),
    });
    m.section(Section::Export);
    m.export(Export { name: "f".to_string(), kind: ExternalKind::Func, index: 3 });
    m.export(Export { name: "fx".to_string(), kind: ExternalKind::FuncExact, index: 3 });
    m.export(Export { name: "t".to_string(), kind: ExternalKind::Table, index: 2 });
    m.export(Export { name: "m".to_string(), kind: ExternalKind::Memory, index: 1 });
    m.export(Export { name: "g".to_string(), kind: ExternalKind::Global, index: 1 });
    m.export(Export { name: "tag".to_string(), kind: ExternalKind::Tag, index: 1 });
    m.section(Section::Start);
    m.start(3);
    m.section(Section::Element);
    m.element(Element {
        kind: ElementKind::Passive,
        items: ElementItems::Functions(vec![3, 2, 3]),
    });
    m.element(Element {
        kind: ElementKind::Active {
            table_index: Some(1),
            offset_expr: expr(vec![Operator::GlobalGet { global_index: 1 }, Operator::End]),
        },
        items: ElementItems::Expressions(
            reference(3),
            vec![
                expr(vec![Operator::RefFunc { function_index: 0 }, Operator::End]),
                expr(vec![Operator::RefNull { hty: HeapType::Concrete(3) }, Operator::End]),
            ],
        ),
    });
    m.section(Section::DataCount);
    m.section(Section::Code);
    m.code_entry(
        vec![(1, ValType::Ref(reference(2)))],
        vec![Operator::MemoryInit { data_index: 1, mem: 0 }, Operator::End],
    )
    .unwrap();
    m.code_entry(vec![], vec![Operator::Throw { tag_index: 1 }, Operator::End]).unwrap();
    m.section(Section::Data);
    m.data(Data {
        kind: DataKind::Active {
            memory_index: 1,
            offset_expr: expr(vec![Operator::I32Const, Operator::End]),
        },
    });
    m.data(Data { kind: DataKind::Passive });
    m.custom_section("last", vec![2, 3]);
    m
}

#[test]
fn the_bridge_fills_the_lists() {
    let m = everything();
    assert_eq!(m.types.len(), 5);
    assert_eq!(m.rec_groups.len(), 4);
    assert_eq!((m.rec_groups[2].explicit, m.rec_groups[2].len), (true, 2));
    assert_eq!((m.rec_groups[3].explicit, m.rec_groups[3].len), (false, 1));
    assert_eq!(m.num_imported_functions, 2);
    assert_eq!(m.num_imported_tables, 1);
    assert_eq!(m.num_imported_memories, 1);
    assert_eq!(m.num_imported_globals, 1);
    assert_eq!(m.num_imported_tags, 1);
    assert_eq!(m.func_types, vec![0, 1, 3, 0]);
    assert_eq!(m.table_types.len(), 3);
    assert_eq!(m.memory_types.len(), 2);
    assert_eq!(m.global_types.len(), 3);
    assert_eq!(m.tag_types, vec![tag(4), tag(0)]);
    assert_eq!(m.imports.len(), 6);
    assert_eq!(m.defined_tables.len(), 2);
    assert_eq!(m.defined_globals.len(), 2);
    assert_eq!(m.exports.len(), 6);
    assert_eq!(m.start_idx, Some(3));
    assert_eq!(m.elems.len(), 2);
    assert_eq!(m.datas.len(), 2);
    assert_eq!(m.defined_funcs.len(), 2);
    assert_eq!(m.defined_funcs[0].type_idx, 3);
    assert_eq!(m.defined_funcs[1].type_idx, 0);
    assert_eq!(
        m.sections,
        vec![
            Section::Passthrough { id: 0, data: vec![1] },
            Section::Type,
            Section::Import,
            Section::Function,
            Section::Table,
            Section::Memory,
            Section::Tag,
            Section::Global,
            Section::Export,
            Section::Start,
            Section::Element,
            Section::DataCount,
            Section::Code,
            Section::Data,
            Section::Passthrough { id: 0, data: vec![2, 3] },
        ]
    );
    assert_eq!(Section::raw(11, vec![1, 2]), Section::Passthrough { id: 11, data: vec![1, 2] });
    assert!(m.check().is_ok());
}

#[test]
fn the_name_section_is_told_apart() {
    assert!(is_name_section("name"));
    assert!(!is_name_section("names"));
    assert!(!is_name_section("nam"));
    assert!(!is_name_section("Name"));
    assert!(!is_name_section(""));
    let mut m = Module::new();
    m.custom_section("name", vec![1, 2, 3]);
    assert!(m.sections.is_empty());
    m.custom_section("producers", vec![1, 2, 3]);
    assert_eq!(m.sections, vec![Section::Passthrough { id: 0, data: vec![1, 2, 3] }]);
}

#[test]
fn a_body_needs_an_entry_of_the_function_section() {
    let mut m = Module::new();
    m.import(import(TypeRef::Func(0))).unwrap();
    let err = m.code_entry(vec![], vec![]).err().unwrap();
    assert_eq!(err.kind, ErrorKind::Parse);
    assert!(m.defined_funcs.is_empty());
    m.function(5);
    m.code_entry(vec![], vec![]).unwrap();
    assert_eq!(m.defined_funcs[0].type_idx, 5);
    assert_eq!(m.code_entry(vec![], vec![]).err().unwrap().kind, ErrorKind::Parse);
}

#[test]
fn direct_uses_of_each_kind_of_item() {
    let m = everything();
    assert!(m.has_item(Relocation::Type(4)));
    assert!(!m.has_item(Relocation::Type(5)));
    assert!(m.has_item(Relocation::Func(3)));
    assert!(!m.has_item(Relocation::Func(4)));
    assert!(!m.has_item(Relocation::Memory(2)));
    assert_eq!(m.space_size(Relocation::Table(0)), 3);
    assert_eq!(m.space_size(Relocation::Data(0)), 2);

    let uses = |item| m.get_item_uses(item);
    expect(uses(Relocation::Type(0)), [&[0], NONE, NONE, NONE, NONE, NONE, NONE, NONE]);
    expect(uses(Relocation::Type(1)), [&[0, 1], NONE, NONE, NONE, NONE, NONE, NONE, NONE]);
    expect(uses(Relocation::Type(3)), [&[2, 3], NONE, NONE, NONE, NONE, NONE, NONE, NONE]);
    // an imported function: itself, its type and what its signature names
    expect(uses(Relocation::Func(1)), [&[0, 1], &[1], NONE, NONE, NONE, NONE, NONE, NONE]);
    expect(m.get_signature_uses(1), [&[0], NONE, NONE, NONE, NONE, NONE, NONE, NONE]);
    expect(m.get_signature_uses(0), [NONE; 8]);
    expect(m.get_signature_uses(77), [NONE; 8]);
    // a defined function: also its locals and its instructions
    expect(uses(Relocation::Func(2)), [&[2, 3], &[2], NONE, NONE, &[0], &[1], NONE, NONE]);
    expect(uses(Relocation::Func(3)), [&[0], &[3], NONE, NONE, NONE, NONE, NONE, &[1]]);
    expect(uses(Relocation::Table(0)), [NONE, NONE, &[0], NONE, NONE, NONE, NONE, NONE]);
    expect(uses(Relocation::Table(1)), [&[3], NONE, &[1], NONE, NONE, NONE, NONE, NONE]);
    expect(uses(Relocation::Table(2)), [NONE, &[3], &[2], NONE, NONE, NONE, NONE, NONE]);
    expect(uses(Relocation::Global(0)), [NONE, NONE, NONE, &[0], NONE, NONE, NONE, NONE]);
    expect(uses(Relocation::Global(1)), [NONE, NONE, NONE, &[0, 1], NONE, NONE, NONE, NONE]);
    expect(uses(Relocation::Global(2)), [&[4], NONE, NONE, &[2], NONE, NONE, NONE, NONE]);
    expect(uses(Relocation::Memory(1)), [NONE, NONE, NONE, NONE, &[1], NONE, NONE, NONE]);
    expect(uses(Relocation::Tag(0)), [&[4], NONE, NONE, NONE, NONE, NONE, NONE, &[0]]);
    expect(uses(Relocation::Tag(1)), [&[0], NONE, NONE, NONE, NONE, NONE, NONE, &[1]]);
    expect(uses(Relocation::Elem(0)), [NONE, &[2, 3], NONE, NONE, NONE, NONE, &[0], NONE]);
    expect(uses(Relocation::Elem(1)), [&[3], &[0], &[1], &[1], NONE, NONE, &[1], NONE]);
    expect(uses(Relocation::Data(0)), [NONE, NONE, NONE, NONE, &[1], &[0], NONE, NONE]);
    expect(uses(Relocation::Data(1)), [NONE, NONE, NONE, NONE, NONE, &[1], NONE, NONE]);
}

#[test]
fn uses_of_the_parts_of_an_item() {
    let call = |f| Operator::Call { function_index: f };
    expect(
        get_instrs_uses(&vec![call(4), Operator::Nop, call(1), call(4)]),
        [NONE, &[1, 4], NONE, NONE, NONE, NONE, NONE, NONE],
    );
    expect(get_instrs_uses(&vec![]), [NONE; 8]);
    expect(
        get_constexpr_uses(&expr(vec![Operator::GlobalGet { global_index: 3 }, Operator::End])),
        [NONE, NONE, NONE, &[3], NONE, NONE, NONE, NONE],
    );
    expect(
        get_constexprs_uses(&vec![expr(vec![call(2)]), expr(vec![]), expr(vec![call(0)])]),
        [NONE, &[0, 2], NONE, NONE, NONE, NONE, NONE, NONE],
    );
    expect(
        get_locals_uses(&vec![(3, ValType::Ref(reference(9))), (1, ValType::I32)]),
        [&[9], NONE, NONE, NONE, NONE, NONE, NONE, NONE],
    );
    expect(
        get_funcs_uses(&vec![5, 1, 5, 0]),
        [NONE, &[0, 1, 5], NONE, NONE, NONE, NONE, NONE, NONE],
    );
    expect(
        get_func_body_uses(&Func {
            type_idx: 2,
            locals: vec![(1, ValType::Ref(reference(1)))],
            instructions: vec![call(7)],
        }),
        [&[1, 2], &[7], NONE, NONE, NONE, NONE, NONE, NONE],
    );
    expect(get_table_init_uses(&TableInit::RefNull), [NONE; 8]);
    expect(
        get_table_init_uses(&TableInit::Expr(expr(vec![call(7)]))),
        [NONE, &[7], NONE, NONE, NONE, NONE, NONE, NONE],
    );
    expect(get_data_kind_uses(&DataKind::Passive), [NONE; 8]);
    expect(
        get_data_kind_uses(&DataKind::Active {
            memory_index: 7,
            offset_expr: expr(vec![Operator::GlobalGet { global_index: 2 }]),
        }),
        [NONE, NONE, NONE, &[2], &[7], NONE, NONE, NONE],
    );
    expect(get_element_kind_uses(&ElementKind::Passive), [NONE; 8]);
    expect(get_element_kind_uses(&ElementKind::Declared), [NONE; 8]);
    // an active segment that names no table initialises table 0
    expect(
        get_element_kind_uses(&ElementKind::Active {
            table_index: None,
            offset_expr: expr(vec![]),
        }),
        [NONE, NONE, &[0], NONE, NONE, NONE, NONE, NONE],
    );
    expect(
        get_element_kind_uses(&ElementKind::Active {
            table_index: Some(4),
            offset_expr: expr(vec![Operator::GlobalGet { global_index: 2 }]),
        }),
        [NONE, NONE, &[4], &[2], NONE, NONE, NONE, NONE],
    );
    expect(
        get_element_items_uses(&ElementItems::Functions(vec![2, 1])),
        [NONE, &[1, 2], NONE, NONE, NONE, NONE, NONE, NONE],
    );
    expect(
        get_element_items_uses(&ElementItems::Expressions(reference(6), vec![expr(vec![call(1)])])),
        [&[6], &[1], NONE, NONE, NONE, NONE, NONE, NONE],
    );
}

#[test]
fn checks_of_the_module() {
    let m = everything();
    assert!(m.check_counts());
    assert!(m.check_groups());
    assert!(m.check_imports());
    assert!(m.check_bodies());
    assert!(m.check_exports());
    assert!(m.check_refs());
    for space in [
        Relocation::Type(0),
        Relocation::Func(0),
        Relocation::Table(0),
        Relocation::Global(0),
        Relocation::Memory(0),
        Relocation::Data(0),
        Relocation::Elem(0),
        Relocation::Tag(0),
    ] {
        assert!(m.check_space(space));
    }
    assert_eq!(imports_of(&m.imports, Relocation::Func(0)), 2);
    assert_eq!(imports_of(&m.imports, Relocation::Table(0)), 1);
    assert_eq!(imports_of(&m.imports, Relocation::Type(0)), 0);
    assert_eq!(exported_item(&m.exports[1]), Relocation::Func(3));
    assert_eq!(exported_item(&m.exports[2]), Relocation::Table(2));
    assert_eq!(exported_item(&m.exports[3]), Relocation::Memory(1));
    assert_eq!(exported_item(&m.exports[4]), Relocation::Global(1));
    assert_eq!(exported_item(&m.exports[5]), Relocation::Tag(1));
    assert!(below(&vec![0, 3], 4));
    assert!(!below(&vec![0, 4], 4));
    assert!(below(&vec![], 0));
    assert!(m.holds_all(&Uses::pair(Relocation::Type(4), Relocation::Data(1))));
    assert!(!m.holds_all(&Uses::pair(Relocation::Type(4), Relocation::Data(2))));

    let mut bad = everything();
    bad.num_imported_tables = 2;
    assert!(!bad.check_counts());
    assert!(bad.check().is_err());

    let mut bad = everything();
    bad.rec_groups[0].len = 2;
    assert!(!bad.check_groups());
    let mut bad = everything();
    bad.rec_groups.pop();
    assert!(!bad.check_groups());

    let mut bad = everything();
    bad.imports.pop();
    assert!(!bad.check_imports());

    let mut bad = everything();
    bad.defined_funcs[1].type_idx = 1;
    assert!(!bad.check_bodies());

    let mut bad = everything();
    bad.tag_types[1] = tag(5);
    assert!(!bad.check_space(Relocation::Tag(0)));
    assert!(bad.check_space(Relocation::Func(0)));
    assert!(!bad.check_refs());
    assert_eq!(bad.check().err().unwrap().kind, ErrorKind::Parse);

    let mut bad = everything();
    bad.start_idx = Some(4);
    assert!(!bad.check_exports());
}

#[test]
fn the_search_is_closed_under_the_use_graph() {
    let m = everything();
    let mut sel = selection();
    sel.elems = vec![1];
    sel.funcs = vec![9];
    let live = find_live(&m, &sel).unwrap();
    expect(
        lists_to_uses(lists(&live)),
        [&[0, 2, 3], &[0], &[1], &[0, 1], NONE, NONE, &[1], NONE],
    );
    for (k, list) in lists(&live).iter().enumerate() {
        for idx in list {
            let item = [
                Relocation::Type(*idx),
                Relocation::Func(*idx),
                Relocation::Table(*idx),
                Relocation::Global(*idx),
                Relocation::Memory(*idx),
                Relocation::Data(*idx),
                Relocation::Elem(*idx),
                Relocation::Tag(*idx),
            ][k];
            let uses = m.get_item_uses(item);
            for (j, used) in lists(&uses).iter().enumerate() {
                for u in used {
                    assert!(lists(&live)[j].contains(u));
                }
            }
        }
    }
    let nothing = find_live(&m, &selection()).unwrap();
    assert!(lists(&nothing).iter().all(|list| list.is_empty()));
}

fn lists_to_uses(lists: [Vec<u32>; 8]) -> Uses {
    let [types, funcs, tables, globals, memories, datas, elems, tags] = lists;
    Uses {
        live_types: types,
        live_funcs: funcs,
        live_tables: tables,
        live_globals: globals,
        live_memories: memories,
        live_datas: datas,
        live_elems: elems,
        live_tags: tags,
    }
}

#[test]
fn unsupported_constructs() {
    assert!(!any_stack_switching(&vec![Operator::Nop, Operator::End]));
    assert!(any_stack_switching(&vec![Operator::Nop, Operator::Suspend { tag_index: 0 }]));
    assert!(!any_expr_stack_switching(&vec![expr(vec![]), expr(vec![Operator::Nop])]));
    assert!(any_expr_stack_switching(&vec![
        expr(vec![]),
        expr(vec![Operator::ContNew { cont_type_index: 0 }]),
    ]));

    let mut m = everything();
    m.types[4].composite_type.inner = CompositeInnerType::Cont(ContType(0));
    m.defined_globals[0].init_expr.ops.push(Operator::Switch { cont_type_index: 4, tag_index: 0 });
    assert!(m.is_unsupported(Relocation::Type(4)));
    assert!(!m.is_unsupported(Relocation::Type(3)));
    assert!(m.is_unsupported(Relocation::Global(1)));
    assert!(!m.is_unsupported(Relocation::Global(0)));
    assert!(!m.is_unsupported(Relocation::Global(2)));
    assert!(!m.is_unsupported(Relocation::Func(0)));
    assert!(!m.is_unsupported(Relocation::Func(2)));
    assert!(!m.is_unsupported(Relocation::Table(2)));
    assert!(!m.is_unsupported(Relocation::Memory(0)));
    assert!(!m.is_unsupported(Relocation::Elem(1)));
    assert!(!m.is_unsupported(Relocation::Data(0)));
    assert!(!m.is_unsupported(Relocation::Tag(0)));

    let mut sel = selection();
    sel.tags = vec![0];
    let err = find_live(&m, &sel).err().unwrap();
    assert_eq!(err.kind, ErrorKind::UnsupportedConstruct);
    assert_eq!(err.item, Some(Relocation::Type(4)));
    sel.tags = vec![1];
    assert!(find_live(&m, &sel).is_ok());
}

#[test]
fn every_section_of_a_full_selection() {
    let m = everything();
    let sel = Selection {
        types: vec![],
        funcs: vec![0, 1, 2, 3],
        tables: vec![0, 1, 2],
        globals: vec![0, 1, 2],
        memories: vec![0, 1],
        datas: vec![],
        elems: vec![],
        tags: vec![0, 1],
    };
    let live = find_live(&m, &sel).unwrap();
    expect(
        lists_to_uses(lists(&live)),
        [&[0, 1, 2, 3, 4], &[0, 1, 2, 3], &[0, 1, 2], &[0, 1, 2], &[0, 1], &[1], NONE, &[0, 1]],
    );
    let r = RelocatingReencoder::new(live);
    assert_eq!(
        emit_types(&m, &r),
        vec![
            GroupEmit { rec: false, members: vec![0] },
            GroupEmit { rec: false, members: vec![1] },
            GroupEmit { rec: true, members: vec![2, 3] },
            GroupEmit { rec: false, members: vec![4] },
        ]
    );
    assert_eq!(emit_imports(&m, &r), vec![0, 1, 2, 3, 4, 5]);
    assert_eq!(emit_functions(&m, &r), vec![3, 0]);
    assert_eq!(emit_start(&m, &r), Some(3));
    assert_eq!(emit_elements(&m, &r), vec![]);
    let datas = emit_datas(&m, &r);
    assert_eq!((datas.len(), datas[0].index, datas[0].memory), (1, 1, None));
    let names: Vec<String> = emit_exports(&m, &sel, &r).into_iter().map(|e| e.name).collect();
    assert_eq!(
        names,
        vec![
            "f",
            "fx",
            "t",
            "m",
            "g",
            "tag",
            "isolated_func_0",
            "isolated_func_1",
            "isolated_func_2",
            "isolated_func_3",
            "isolated_table_0",
            "isolated_table_1",
            "isolated_table_2",
            "isolated_global_0",
            "isolated_global_1",
            "isolated_global_2",
            "isolated_memory_0",
            "isolated_memory_1",
            "isolated_tag_0",
            "isolated_tag_1",
        ]
    );
    let sections = emit_sections(&m, &sel, &r);
    assert_eq!(sections.len(), m.sections.len());
    assert_eq!(sections[4], EmitSection::Table(vec![1, 2]));
    assert_eq!(sections[5], EmitSection::Memory(vec![memory_type()]));
    assert_eq!(sections[6], EmitSection::Tag(vec![tag(0)]));
    assert_eq!(emit_memories(&m, &r), vec![memory_type()]);
    assert_eq!(emit_tags(&m, &r), vec![tag(0)]);
    assert_eq!(sections[7], EmitSection::Global(vec![1, 2]));
    assert_eq!(sections[9], EmitSection::Start(Some(3)));
    assert_eq!(sections[11], EmitSection::DataCount(1));
    assert_eq!(sections[12], EmitSection::Code(vec![2, 3]));
    assert_eq!(emit_section(&m, &sel, &r, &Section::DataCount), EmitSection::DataCount(1));
    assert_eq!(
        emit_section(&m, &sel, &r, &Section::raw(3, vec![7])),
        EmitSection::Passthrough { id: 3, data: vec![7] }
    );
}

#[test]
fn sections_of_a_partial_selection() {
    let m = everything();
    let mut sel = selection();
    sel.funcs = vec![3];
    sel.tables = vec![2, 2];
    let live = find_live(&m, &sel).unwrap();
    expect(
        lists_to_uses(lists(&live)),
        [&[0], &[3], &[2], NONE, NONE, NONE, NONE, &[1]],
    );
    let r = RelocatingReencoder::new(live);
    assert_eq!(emit_types(&m, &r), vec![GroupEmit { rec: false, members: vec![0] }]);
    assert_eq!(emit_imports(&m, &r), Vec::<u32>::new());
    assert_eq!(emit_functions(&m, &r), vec![0]);
    assert_eq!(emit_start(&m, &r), Some(0));
    assert_eq!(emit_tags(&m, &r), vec![tag(0)]);
    assert_eq!(emit_memories(&m, &r), vec![]);
    let exports: Vec<(String, u32)> =
        emit_exports(&m, &sel, &r).into_iter().map(|e| (e.name, e.index)).collect();
    assert_eq!(
        exports,
        vec![
            ("f".to_string(), 0),
            ("fx".to_string(), 0),
            ("t".to_string(), 0),
            ("tag".to_string(), 0),
            ("isolated_func_3".to_string(), 0),
            ("isolated_table_2".to_string(), 0),
        ]
    );

    let mut sel = selection();
    sel.elems = vec![1];
    let live = find_live(&m, &sel).unwrap();
    let r = RelocatingReencoder::new(live);
    // the imports at 0 (function 0) and at 4 (global 0) are live
    assert_eq!(emit_imports(&m, &r), vec![0, 4]);
    assert_eq!(
        emit_types(&m, &r),
        vec![
            GroupEmit { rec: false, members: vec![0] },
            GroupEmit { rec: true, members: vec![2, 3] },
        ]
    );
    let elems = emit_elements(&m, &r);
    assert_eq!((elems.len(), elems[0].index, elems[0].table), (1, 1, Some(0)));
}

#[test]
fn parts_of_a_live_list() {
    let list = vec![1, 4, 5, 9];
    assert_eq!(defined_live(&list, 0), vec![1, 4, 5, 9]);
    assert_eq!(defined_live(&list, 4), vec![4, 5, 9]);
    assert_eq!(defined_live(&list, 6), vec![9]);
    assert_eq!(defined_live(&list, 10), Vec::<u32>::new());
    assert_eq!(live_range(&list, 0, 1), Vec::<u32>::new());
    assert_eq!(live_range(&list, 1, 5), vec![1, 4]);
    assert_eq!(live_range(&list, 4, 4), Vec::<u32>::new());
    assert_eq!(live_range(&list, 2, 100), vec![4, 5, 9]);
}
