//! Builds a module from the entries of its sections, as a decoder hands
//! them over one by one.

use crate::module::{
    Data, Element, Export, Func, Global, Import, Module, Section, Table, TypeRef,
};
use crate::operators::Operator;
use crate::relocation::{Error, ErrorKind};
use crate::types::{MemoryType, RecGroup, SubType, TagType, ValType};
use vstd::prelude::*;
use vstd::string::*;

verus! {

/// Tells whether the text is the name of the section of debug names,
/// which is not kept.
pub fn is_name_section(name: &str) -> (res: bool)
    ensures
        res == (name@ == "name"@),
{
    let given = name.to_owned();
    let dropped = String::from_str("name");
    given == dropped
}

impl Module {
    /// A module without any item or section.
    pub fn new() -> (res: Module)
        ensures
            res.types@.len() == 0,
            res.rec_groups@.len() == 0,
            res.num_imported_functions == 0,
            res.num_imported_tables == 0,
            res.num_imported_memories == 0,
            res.num_imported_globals == 0,
            res.num_imported_tags == 0,
            res.func_types@.len() == 0,
            res.table_types@.len() == 0,
            res.memory_types@.len() == 0,
            res.global_types@.len() == 0,
            res.tag_types@.len() == 0,
            res.imports@.len() == 0,
            res.defined_tables@.len() == 0,
            res.defined_globals@.len() == 0,
            res.exports@.len() == 0,
            res.start_idx is None,
            res.elems@.len() == 0,
            res.defined_funcs@.len() == 0,
            res.datas@.len() == 0,
            res.sections@.len() == 0,
    {
        Module {
            types: Vec::new(),
            rec_groups: Vec::new(),
            num_imported_functions: 0,
            num_imported_tables: 0,
            num_imported_memories: 0,
            num_imported_globals: 0,
            num_imported_tags: 0,
            func_types: Vec::new(),
            table_types: Vec::new(),
            memory_types: Vec::new(),
            global_types: Vec::new(),
            tag_types: Vec::new(),
            imports: Vec::new(),
            defined_tables: Vec::new(),
            defined_globals: Vec::new(),
            exports: Vec::new(),
            start_idx: None,
            elems: Vec::new(),
            defined_funcs: Vec::new(),
            datas: Vec::new(),
            sections: Vec::new(),
        }
    }

    /// Records that a section of a known kind begins here, so that the
    /// sections are written in the order of the input.
    pub fn section(&mut self, kind: Section)
        ensures
            final(self).sections@ == old(self).sections@.push(kind),
            *final(self) == (Module { sections: final(self).sections, ..*old(self) }),
    {
        self.sections.push(kind);
    }

    /// Takes in a custom section. The section of debug names, whose name is
    /// `name`, is dropped; any other is kept as its raw bytes, to be copied
    /// where it stood.
    pub fn custom_section(&mut self, name: &str, data: Vec<u8>)
        ensures
            name@ == "name"@ ==> *final(self) == *old(self),
            name@ != "name"@ ==> final(self).sections@ == old(self).sections@.push(
                Section::Passthrough { id: 0, data },
            ),
            *final(self) == (Module { sections: final(self).sections, ..*old(self) }),
    {
        if is_name_section(name) {
            return ;
        }
        self.sections.push(Section::raw(0, data));
    }

    /// Takes in one recursive group of the type section. It fails if the
    /// group holds more types than 32 bits can count.
    pub fn rec_group(&mut self, explicit: bool, types: Vec<SubType>) -> (res: Result<(), Error>)
        ensures
            res is Ok <==> types@.len() <= u32::MAX,
            res matches Err(e) ==> e.kind == ErrorKind::Parse && *final(self) == *old(self),
            res is Ok ==> {
                &&& final(self).types@ == old(self).types@ + types@
                &&& final(self).rec_groups@ == old(self).rec_groups@.push(
                    RecGroup { explicit, len: types@.len() as u32 },
                )
                &&& *final(self) == (Module {
                    types: final(self).types,
                    rec_groups: final(self).rec_groups,
                    ..*old(self)
                })
            },
    {
        if types.len() > 0xffff_ffff {
            return Err(Error { kind: ErrorKind::Parse, item: None });
        }
        let mut types = types;
        self.rec_groups.push(RecGroup { explicit, len: types.len() as u32 });
        self.types.append(&mut types);
        Ok(())
    }

    /// Takes in one import: the item goes to the end of the imported part
    /// of its index space. It fails if the index space already holds as
    /// many imports as 32 bits can count.
    pub fn import(&mut self, import: Import) -> (res: Result<(), Error>)
        ensures
            res is Ok <==> old(self).imported(import.ty) < u32::MAX,
            res matches Err(e) ==> e.kind == ErrorKind::Parse && *final(self) == *old(self),
            res is Ok ==> old(self).with_import(import, *final(self)),
    {
        match import.ty {
            TypeRef::Func(type_idx) | TypeRef::FuncExact(type_idx) => {
                if self.num_imported_functions == 0xffff_ffff {
                    return Err(Error { kind: ErrorKind::Parse, item: None });
                }
                self.num_imported_functions += 1;
                self.func_types.push(type_idx);
            },
            TypeRef::Table(ty) => {
                if self.num_imported_tables == 0xffff_ffff {
                    return Err(Error { kind: ErrorKind::Parse, item: None });
                }
                self.num_imported_tables += 1;
                self.table_types.push(ty);
            },
            TypeRef::Memory(ty) => {
                if self.num_imported_memories == 0xffff_ffff {
                    return Err(Error { kind: ErrorKind::Parse, item: None });
                }
                self.num_imported_memories += 1;
                self.memory_types.push(ty);
            },
            TypeRef::Global(ty) => {
                if self.num_imported_globals == 0xffff_ffff {
                    return Err(Error { kind: ErrorKind::Parse, item: None });
                }
                self.num_imported_globals += 1;
                self.global_types.push(ty);
            },
            TypeRef::Tag(ty) => {
                if self.num_imported_tags == 0xffff_ffff {
                    return Err(Error { kind: ErrorKind::Parse, item: None });
                }
                self.num_imported_tags += 1;
                self.tag_types.push(ty);
            },
        }
        self.imports.push(import);
        Ok(())
    }

    /// Takes in one entry of the function section: the type of the next
    /// function that the module defines.
    pub fn function(&mut self, type_idx: u32)
        ensures
            final(self).func_types@ == old(self).func_types@.push(type_idx),
            *final(self) == (Module { func_types: final(self).func_types, ..*old(self) }),
    {
        self.func_types.push(type_idx);
    }

    /// Takes in one entry of the table section.
    pub fn table(&mut self, table: Table)
        ensures
            final(self).table_types@ == old(self).table_types@.push(table.ty),
            final(self).defined_tables@ == old(self).defined_tables@.push(table),
            *final(self) == (Module {
                table_types: final(self).table_types,
                defined_tables: final(self).defined_tables,
                ..*old(self)
            }),
    {
        self.table_types.push(table.ty);
        self.defined_tables.push(table);
    }

    /// Takes in one entry of the memory section.
    pub fn memory(&mut self, ty: MemoryType)
        ensures
            final(self).memory_types@ == old(self).memory_types@.push(ty),
            *final(self) == (Module { memory_types: final(self).memory_types, ..*old(self) }),
    {
        self.memory_types.push(ty);
    }

    /// Takes in one entry of the tag section.
    pub fn tag(&mut self, ty: TagType)
        ensures
            final(self).tag_types@ == old(self).tag_types@.push(ty),
            *final(self) == (Module { tag_types: final(self).tag_types, ..*old(self) }),
    {
        self.tag_types.push(ty);
    }

    /// Takes in one entry of the global section.
    pub fn global(&mut self, global: Global)
        ensures
            final(self).global_types@ == old(self).global_types@.push(global.ty),
            final(self).defined_globals@ == old(self).defined_globals@.push(global),
            *final(self) == (Module {
                global_types: final(self).global_types,
                defined_globals: final(self).defined_globals,
                ..*old(self)
            }),
    {
        self.global_types.push(global.ty);
        self.defined_globals.push(global);
    }

    /// Takes in one entry of the export section.
    pub fn export(&mut self, export: Export)
        ensures
            final(self).exports@ == old(self).exports@.push(export),
            *final(self) == (Module { exports: final(self).exports, ..*old(self) }),
    {
        self.exports.push(export);
    }

    /// Takes in the start section.
    pub fn start(&mut self, func: u32)
        ensures
            *final(self) == (Module { start_idx: Some(func), ..*old(self) }),
    {
        self.start_idx = Some(func);
    }

    /// Takes in one entry of the element section.
    pub fn element(&mut self, element: Element)
        ensures
            final(self).elems@ == old(self).elems@.push(element),
            *final(self) == (Module { elems: final(self).elems, ..*old(self) }),
    {
        self.elems.push(element);
    }

    /// Takes in one entry of the data section.
    pub fn data(&mut self, data: Data)
        ensures
            final(self).datas@ == old(self).datas@.push(data),
            *final(self) == (Module { datas: final(self).datas, ..*old(self) }),
    {
        self.datas.push(data);
    }

    /// The index of the function whose body comes next in the code
    /// section: the bodies follow the imported functions, in order.
    pub open spec fn next_body(&self) -> int {
        self.num_imported_functions + self.defined_funcs@.len()
    }

    /// Takes in one entry of the code section: the body of the next
    /// defined function, which gets its type from the function section.
    /// It fails if the function section has no entry for the body.
    pub fn code_entry(&mut self, locals: Vec<(u32, ValType)>, instructions: Vec<Operator>) -> (res:
        Result<(), Error>)
        ensures
            res is Ok <==> old(self).next_body() < old(self).func_types@.len(),
            res matches Err(e) ==> e.kind == ErrorKind::Parse && *final(self) == *old(self),
            res is Ok ==> {
                &&& final(self).defined_funcs@ == old(self).defined_funcs@.push(
                    Func {
                        type_idx: old(self).func_types@[old(self).next_body()],
                        locals,
                        instructions,
                    },
                )
                &&& *final(self) == (Module {
                    defined_funcs: final(self).defined_funcs,
                    ..*old(self)
                })
            },
    {
        let imported: usize = self.num_imported_functions as usize;
        if self.func_types.len() < imported || self.func_types.len() - imported
            <= self.defined_funcs.len() {
            return Err(Error { kind: ErrorKind::Parse, item: None });
        }
        let current_func: usize = imported + self.defined_funcs.len();
        let func = Func { type_idx: self.func_types[current_func], locals, instructions };
        self.defined_funcs.push(func);
        Ok(())
    }

    /// The number of imports counted so far in the index space that an
    /// import of the given kind adds to.
    pub open spec fn imported(&self, ty: TypeRef) -> u32 {
        match ty {
            TypeRef::Func(_) => self.num_imported_functions,
            TypeRef::FuncExact(_) => self.num_imported_functions,
            TypeRef::Table(_) => self.num_imported_tables,
            TypeRef::Memory(_) => self.num_imported_memories,
            TypeRef::Global(_) => self.num_imported_globals,
            TypeRef::Tag(_) => self.num_imported_tags,
        }
    }

    /// `after` is this module with one more import: the import is added
    /// to the list of imports, the count of imports of its index space is
    /// one higher, and its type is added to the types of that space.
    /// Nothing else differs.
    pub open spec fn with_import(&self, import: Import, after: Module) -> bool {
        &&& after.imports@ == self.imports@.push(import)
        &&& match import.ty {
            TypeRef::Func(type_idx) | TypeRef::FuncExact(type_idx) => {
                &&& after.num_imported_functions == self.num_imported_functions + 1
                &&& after.func_types@ == self.func_types@.push(type_idx)
                &&& after == (Module {
                    num_imported_functions: after.num_imported_functions,
                    func_types: after.func_types,
                    imports: after.imports,
                    ..*self
                })
            },
            TypeRef::Table(ty) => {
                &&& after.num_imported_tables == self.num_imported_tables + 1
                &&& after.table_types@ == self.table_types@.push(ty)
                &&& after == (Module {
                    num_imported_tables: after.num_imported_tables,
                    table_types: after.table_types,
                    imports: after.imports,
                    ..*self
                })
            },
            TypeRef::Memory(ty) => {
                &&& after.num_imported_memories == self.num_imported_memories + 1
                &&& after.memory_types@ == self.memory_types@.push(ty)
                &&& after == (Module {
                    num_imported_memories: after.num_imported_memories,
                    memory_types: after.memory_types,
                    imports: after.imports,
                    ..*self
                })
            },
            TypeRef::Global(ty) => {
                &&& after.num_imported_globals == self.num_imported_globals + 1
                &&& after.global_types@ == self.global_types@.push(ty)
                &&& after == (Module {
                    num_imported_globals: after.num_imported_globals,
                    global_types: after.global_types,
                    imports: after.imports,
                    ..*self
                })
            },
            TypeRef::Tag(ty) => {
                &&& after.num_imported_tags == self.num_imported_tags + 1
                &&& after.tag_types@ == self.tag_types@.push(ty)
                &&& after == (Module {
                    num_imported_tags: after.num_imported_tags,
                    tag_types: after.tag_types,
                    imports: after.imports,
                    ..*self
                })
            },
        }
    }
}

} // verus!
