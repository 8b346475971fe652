//! The names of the exports that the library adds, and the lines that tell
//! where the selected items went.

use crate::relocation::Relocation;
use vstd::prelude::*;
use vstd::string::*;

verus! {

/// The character of a decimal digit.
pub open spec fn digit(d: nat) -> char {
    if d == 0 {
        '0'
    } else if d == 1 {
        '1'
    } else if d == 2 {
        '2'
    } else if d == 3 {
        '3'
    } else if d == 4 {
        '4'
    } else if d == 5 {
        '5'
    } else if d == 6 {
        '6'
    } else if d == 7 {
        '7'
    } else if d == 8 {
        '8'
    } else {
        '9'
    }
}

/// The decimal numeral of a number, without leading zeros.
pub open spec fn decimal(n: nat) -> Seq<char>
    decreases n,
{
    if n < 10 {
        seq![digit(n)]
    } else {
        decimal(n / 10).push(digit(n % 10))
    }
}

/// Appends one decimal digit to the text.
fn push_digit(text: &mut String, d: u32)
    requires
        d < 10,
    ensures
        final(text)@ == old(text)@.push(digit(d as nat)),
{
    proof {
        reveal_strlit("0");
        reveal_strlit("1");
        reveal_strlit("2");
        reveal_strlit("3");
        reveal_strlit("4");
        reveal_strlit("5");
        reveal_strlit("6");
        reveal_strlit("7");
        reveal_strlit("8");
        reveal_strlit("9");
    }
    let ghost before = text@;
    if d == 0 {
        text.append("0");
    } else if d == 1 {
        text.append("1");
    } else if d == 2 {
        text.append("2");
    } else if d == 3 {
        text.append("3");
    } else if d == 4 {
        text.append("4");
    } else if d == 5 {
        text.append("5");
    } else if d == 6 {
        text.append("6");
    } else if d == 7 {
        text.append("7");
    } else if d == 8 {
        text.append("8");
    } else {
        text.append("9");
    }
    assert(text@ =~= before.push(digit(d as nat)));
}

/// Appends the decimal numeral of `n` to the text.
pub fn push_decimal(text: &mut String, n: u32)
    ensures
        final(text)@ == old(text)@ + decimal(n as nat),
    decreases n,
{
    let ghost before = text@;
    if n < 10 {
        push_digit(text, n);
        assert(text@ =~= before + decimal(n as nat));
    } else {
        push_decimal(text, n / 10);
        push_digit(text, n % 10);
        assert(text@ =~= before + decimal(n as nat));
    }
}

/// The name of the export that is added for a selected item: `isolated_`,
/// the kind of the item, `_`, and the item's original index in decimal.
/// Types and segments are not exported, and have no such name.
pub open spec fn isolated_name(item: Relocation) -> Seq<char> {
    match item {
        Relocation::Func(idx) => "isolated_func_"@ + decimal(idx as nat),
        Relocation::Table(idx) => "isolated_table_"@ + decimal(idx as nat),
        Relocation::Global(idx) => "isolated_global_"@ + decimal(idx as nat),
        Relocation::Memory(idx) => "isolated_memory_"@ + decimal(idx as nat),
        Relocation::Tag(idx) => "isolated_tag_"@ + decimal(idx as nat),
        _ => Seq::empty(),
    }
}

/// The name of the export that is added for a selected item.
pub fn get_isolated_name(item: Relocation) -> (res: String)
    ensures
        res@ == isolated_name(item),
{
    match item {
        Relocation::Func(idx) => {
            let mut name = String::from_str("isolated_func_");
            push_decimal(&mut name, idx);
            name
        },
        Relocation::Table(idx) => {
            let mut name = String::from_str("isolated_table_");
            push_decimal(&mut name, idx);
            name
        },
        Relocation::Global(idx) => {
            let mut name = String::from_str("isolated_global_");
            push_decimal(&mut name, idx);
            name
        },
        Relocation::Memory(idx) => {
            let mut name = String::from_str("isolated_memory_");
            push_decimal(&mut name, idx);
            name
        },
        Relocation::Tag(idx) => {
            let mut name = String::from_str("isolated_tag_");
            push_decimal(&mut name, idx);
            name
        },
        _ => String::new(),
    }
}

/// What an item is called in the report.
pub open spec fn kind_label(item: Relocation) -> Seq<char> {
    match item {
        Relocation::Type(_) => "  Type "@,
        Relocation::Func(_) => "  Func "@,
        Relocation::Table(_) => "  Table "@,
        Relocation::Global(_) => "  Global "@,
        Relocation::Memory(_) => "  Memory "@,
        Relocation::Data(_) => "  Data segment "@,
        Relocation::Elem(_) => "  Elem segment "@,
        Relocation::Tag(_) => "  Tag "@,
    }
}

/// The line of the report for one selected item: where it went, or that it
/// was ignored because the module has no such item.
pub open spec fn report_line(item: Relocation, new: Option<u32>) -> Seq<char> {
    match new {
        Some(idx) => kind_label(item) + decimal(item.spec_index() as nat) + " -> "@ + decimal(
            idx as nat,
        ),
        None => kind_label(item) + decimal(item.spec_index() as nat)
            + " was out of range and therefore ignored."@,
    }
}

/// The line of the report for one selected item.
pub fn get_report_line(item: Relocation, new: Option<u32>) -> (res: String)
    ensures
        res@ == report_line(item, new),
{
    let mut line = match item {
        Relocation::Type(_) => String::from_str("  Type "),
        Relocation::Func(_) => String::from_str("  Func "),
        Relocation::Table(_) => String::from_str("  Table "),
        Relocation::Global(_) => String::from_str("  Global "),
        Relocation::Memory(_) => String::from_str("  Memory "),
        Relocation::Data(_) => String::from_str("  Data segment "),
        Relocation::Elem(_) => String::from_str("  Elem segment "),
        Relocation::Tag(_) => String::from_str("  Tag "),
    };
    push_decimal(&mut line, item.index());
    match new {
        Some(idx) => {
            line.append(" -> ");
            push_decimal(&mut line, idx);
        },
        None => {
            line.append(" was out of range and therefore ignored.");
        },
    }
    line
}

} // verus!
