//! The types of a WebAssembly module, as far as isolating reads them.

use vstd::prelude::*;

verus! {

/// A heap type that names no type of the module.
#[derive(Clone, Copy, Debug, PartialEq, Eq, Structural)]
pub enum AbstractHeapType {
    Func,
    Extern,
    Any,
    NoneHeap,
    NoExtern,
    NoFunc,
    Eq,
    Struct,
    Array,
    I31,
    Exn,
    NoExn,
    Cont,
    NoCont,
}

/// What a reference points to: an abstract heap type, or a type of the
/// module by its index, which an exact reference names too.
#[derive(Clone, Copy, Debug, PartialEq, Eq, Structural)]
pub enum HeapType {
    Abstract { shared: bool, ty: AbstractHeapType },
    Concrete(u32),
    Exact(u32),
}

/// A reference type.
#[derive(Clone, Copy, Debug, PartialEq, Eq, Structural)]
pub struct RefType {
    pub nullable: bool,
    pub heap_type: HeapType,
}

/// A value type.
#[derive(Clone, Copy, Debug, PartialEq, Eq, Structural)]
pub enum ValType {
    I32,
    I64,
    F32,
    F64,
    V128,
    Ref(RefType),
}

/// The type of a field: a packed integer or a value type.
#[derive(Clone, Copy, Debug, PartialEq, Eq, Structural)]
pub enum StorageType {
    I8,
    I16,
    Val(ValType),
}

/// A field of a struct or the element of an array.
#[derive(Clone, Copy, Debug, PartialEq, Eq, Structural)]
pub struct FieldType {
    pub element_type: StorageType,
    pub mutable: bool,
}

/// An array type.
#[derive(Clone, Copy, Debug, PartialEq, Eq, Structural)]
pub struct ArrayType(pub FieldType);

/// A struct type.
#[derive(Clone, Debug, PartialEq, Eq)]
pub struct StructType {
    pub fields: Vec<FieldType>,
}

/// A function signature.
#[derive(Clone, Debug, PartialEq, Eq)]
pub struct FuncType {
    pub params: Vec<ValType>,
    pub results: Vec<ValType>,
}

/// A continuation type, which names the function type it continues.
#[derive(Clone, Copy, Debug, PartialEq, Eq, Structural)]
pub struct ContType(pub u32);

/// The four forms of a defined type.
#[derive(Clone, Debug, PartialEq, Eq)]
pub enum CompositeInnerType {
    Func(FuncType),
    Array(ArrayType),
    Struct(StructType),
    Cont(ContType),
}

/// A defined type with its sharedness.
#[derive(Clone, Debug, PartialEq, Eq)]
pub struct CompositeType {
    pub inner: CompositeInnerType,
    pub shared: bool,
}

/// One type definition of the type section.
#[derive(Clone, Debug, PartialEq, Eq)]
pub struct SubType {
    pub is_final: bool,
    pub supertype_idx: Option<u32>,
    pub composite_type: CompositeType,
}

/// A run of type definitions that are emitted together. A group that the
/// binary did not mark as recursive holds exactly one definition.
#[derive(Clone, Copy, Debug, PartialEq, Eq, Structural)]
pub struct RecGroup {
    pub explicit: bool,
    pub len: u32,
}

/// The type of a table.
#[derive(Clone, Copy, Debug, PartialEq, Eq, Structural)]
pub struct TableType {
    pub element_type: RefType,
    pub table64: bool,
    pub initial: u64,
    pub maximum: Option<u64>,
    pub shared: bool,
}

/// The type of a memory.
#[derive(Clone, Copy, Debug, PartialEq, Eq, Structural)]
pub struct MemoryType {
    pub memory64: bool,
    pub shared: bool,
    pub initial: u64,
    pub maximum: Option<u64>,
    pub page_size_log2: Option<u32>,
}

/// The type of a global.
#[derive(Clone, Copy, Debug, PartialEq, Eq, Structural)]
pub struct GlobalType {
    pub content_type: ValType,
    pub mutable: bool,
    pub shared: bool,
}

/// The kinds of tags.
#[derive(Clone, Copy, Debug, PartialEq, Eq, Structural)]
pub enum TagKind {
    Exception,
}

/// The type of a tag: its kind and the index of its function type.
#[derive(Clone, Copy, Debug, PartialEq, Eq, Structural)]
pub struct TagType {
    pub kind: TagKind,
    pub func_type_idx: u32,
}

/// The type of a block: nothing, one result, or a function type by index.
#[derive(Clone, Copy, Debug, PartialEq, Eq, Structural)]
pub enum BlockType {
    Empty,
    Type(ValType),
    FuncType(u32),
}

/// The memory that a load, a store or an atomic operation works on.
#[derive(Clone, Copy, Debug, PartialEq, Eq, Structural)]
pub struct MemArg {
    pub memory: u32,
}

/// A handler of a `try_table`.
#[derive(Clone, Copy, Debug, PartialEq, Eq, Structural)]
pub enum Catch {
    One { tag: u32, label: u32 },
    OneRef { tag: u32, label: u32 },
    All { label: u32 },
    AllRef { label: u32 },
}

/// The block type and the handlers of a `try_table`.
#[derive(Clone, Debug, PartialEq, Eq)]
pub struct TryTable {
    pub ty: BlockType,
    pub catches: Vec<Catch>,
}

} // verus!
