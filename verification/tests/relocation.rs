use wasm_isolate::names::{get_isolated_name, get_report_line, push_decimal};
use wasm_isolate::relocation::{get_new_index, RelocatingReencoder, Relocation};
use wasm_isolate::uses::Uses;

fn live() -> Uses {
    let mut live = Uses::default();
    live.live_types = vec![1, 4, 5];
    live.live_funcs = vec![0, 2, 3, 10];
    live.live_tables = vec![7];
    live.live_globals = vec![2, 3];
    live.live_memories = vec![0];
    live.live_datas = vec![5, 6];
    live.live_elems = vec![1];
    live.live_tags = vec![8, 9];
    live
}

#[test]
fn new_index_is_the_position() {
    let list = vec![3, 5, 9, 20];
    assert_eq!(get_new_index(&list, &3), 0);
    assert_eq!(get_new_index(&list, &5), 1);
    assert_eq!(get_new_index(&list, &9), 2);
    assert_eq!(get_new_index(&list, &20), 3);
    // of an index that occurs twice, the first position
    assert_eq!(get_new_index(&vec![4, 2, 4], &4), 0);
}

#[test]
fn live_indices_are_rewritten_and_others_pass_through() {
    let r = RelocatingReencoder::new(live());
    assert_eq!(r.type_index(1), 0);
    assert_eq!(r.type_index(4), 1);
    assert_eq!(r.type_index(5), 2);
    assert_eq!(r.type_index(0), 0);
    assert_eq!(r.type_index(3), 3);
    assert_eq!(r.type_index(6), 6);
    assert_eq!(r.function_index(10), 3);
    assert_eq!(r.function_index(1), 1);
    assert_eq!(r.table_index(7), 0);
    assert_eq!(r.table_index(0), 0);
    assert_eq!(r.global_index(3), 1);
    assert_eq!(r.global_index(4), 4);
    assert_eq!(r.memory_index(0), 0);
    assert_eq!(r.memory_index(2), 2);
    assert_eq!(r.data_index(6), 1);
    assert_eq!(r.data_index(0), 0);
    assert_eq!(r.element_index(1), 0);
    assert_eq!(r.element_index(9), 9);
    assert_eq!(r.tag_index(9), 1);
    assert_eq!(r.tag_index(u32::MAX), u32::MAX);
    assert_eq!(r.index(Relocation::Tag(8)), 0);
    assert_eq!(r.get(Relocation::Tag(8)), Some(0));
    assert_eq!(r.get(Relocation::Tag(7)), None);
    assert_eq!(r.get(Relocation::Func(7)), None);
    assert_eq!(r.live_items().live_funcs, vec![0, 2, 3, 10]);
}

#[test]
fn new_indices_are_dense_and_keep_the_order() {
    let r = RelocatingReencoder::new(live());
    let list = r.live_items().live_funcs.clone();
    let new: Vec<u32> = list.iter().map(|f| r.get(Relocation::Func(*f)).unwrap()).collect();
    assert_eq!(new, vec![0, 1, 2, 3]);
    for a in 0..list.len() {
        for b in 0..list.len() {
            if list[a] < list[b] {
                assert!(new[a] < new[b]);
            }
        }
    }
}

#[test]
fn decimal_numerals() {
    for n in [0u32, 1, 9, 10, 11, 99, 100, 101, 4096, 1_000_000, u32::MAX] {
        let mut text = "x".to_string();
        push_decimal(&mut text, n);
        assert_eq!(text, format!("x{}", n));
    }
}

#[test]
fn names_of_added_exports() {
    assert_eq!(get_isolated_name(Relocation::Func(0)), "isolated_func_0");
    assert_eq!(get_isolated_name(Relocation::Func(17)), "isolated_func_17");
    assert_eq!(get_isolated_name(Relocation::Table(3)), "isolated_table_3");
    assert_eq!(get_isolated_name(Relocation::Global(120)), "isolated_global_120");
    assert_eq!(get_isolated_name(Relocation::Memory(7)), "isolated_memory_7");
    assert_eq!(get_isolated_name(Relocation::Tag(4294967295)), "isolated_tag_4294967295");
    assert_eq!(get_isolated_name(Relocation::Type(1)), "");
    assert_eq!(get_isolated_name(Relocation::Data(1)), "");
    assert_eq!(get_isolated_name(Relocation::Elem(1)), "");
}

#[test]
fn report_lines() {
    assert_eq!(get_report_line(Relocation::Type(4), Some(1)), "  Type 4 -> 1");
    assert_eq!(get_report_line(Relocation::Func(17), Some(3)), "  Func 17 -> 3");
    assert_eq!(get_report_line(Relocation::Table(0), Some(0)), "  Table 0 -> 0");
    assert_eq!(get_report_line(Relocation::Global(12), Some(10)), "  Global 12 -> 10");
    assert_eq!(get_report_line(Relocation::Memory(7), Some(0)), "  Memory 7 -> 0");
    assert_eq!(get_report_line(Relocation::Data(2), Some(1)), "  Data segment 2 -> 1");
    assert_eq!(get_report_line(Relocation::Elem(2), Some(1)), "  Elem segment 2 -> 1");
    assert_eq!(get_report_line(Relocation::Tag(5), Some(2)), "  Tag 5 -> 2");
    assert_eq!(
        get_report_line(Relocation::Type(4), None),
        "  Type 4 was out of range and therefore ignored."
    );
    assert_eq!(
        get_report_line(Relocation::Func(99), None),
        "  Func 99 was out of range and therefore ignored."
    );
    assert_eq!(
        get_report_line(Relocation::Table(1), None),
        "  Table 1 was out of range and therefore ignored."
    );
    assert_eq!(
        get_report_line(Relocation::Global(1), None),
        "  Global 1 was out of range and therefore ignored."
    );
    assert_eq!(
        get_report_line(Relocation::Memory(1), None),
        "  Memory 1 was out of range and therefore ignored."
    );
    assert_eq!(
        get_report_line(Relocation::Data(1), None),
        "  Data segment 1 was out of range and therefore ignored."
    );
    assert_eq!(
        get_report_line(Relocation::Elem(1), None),
        "  Elem segment 1 was out of range and therefore ignored."
    );
    assert_eq!(
        get_report_line(Relocation::Tag(1), None),
        "  Tag 1 was out of range and therefore ignored."
    );
}
