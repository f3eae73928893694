//! The class model the formatter renders.
//!
//! Every entity here is a read-only input built by the external class-file
//! decoder before rendering starts; the formatter never mutates it.  Text is
//! carried as `Vec<char>` so that its view is a plain `Seq<char>`.

use vstd::prelude::*;

verus! {

/// A class-level access modifier.
#[derive(Clone, Copy, Debug, PartialEq, Eq, Structural)]
pub enum ClassAccess {
    Public,
    Final,
    Super,
    Interface,
    Abstract,
    Synthetic,
    Annotation,
    Enum,
    Module,
}

/// A method-level access modifier.  The method printer leaves the flags line
/// as a placeholder, so these are carried but never formatted.
#[derive(Clone, Copy, Debug, PartialEq, Eq, Structural)]
pub enum MethodAccess {
    Public,
    Private,
    Protected,
    Static,
    Final,
    Synchronized,
    Bridge,
    Varargs,
    Native,
    Abstract,
    Strict,
    Synthetic,
}

/// One constant-pool entry.  Every index field is a 1-based pool index.
pub enum PoolEntry {
    Utf8(Vec<char>),
    Class { name_index: u16 },
    Str { string_index: u16 },
    Fieldref { class_index: u16, name_and_type_index: u16 },
    Methodref { class_index: u16, name_and_type_index: u16 },
    NameAndType { name_index: u16, descriptor_index: u16 },
}

/// The mathematical form of a constant-pool entry.
pub enum PoolEntryV {
    Utf8(Seq<char>),
    Class { name_index: u16 },
    Str { string_index: u16 },
    Fieldref { class_index: u16, name_and_type_index: u16 },
    Methodref { class_index: u16, name_and_type_index: u16 },
    NameAndType { name_index: u16, descriptor_index: u16 },
}

impl View for PoolEntry {
    type V = PoolEntryV;

    open spec fn view(&self) -> PoolEntryV {
        match self {
            PoolEntry::Utf8(s) => PoolEntryV::Utf8(s@),
            PoolEntry::Class { name_index } => PoolEntryV::Class { name_index: *name_index },
            PoolEntry::Str { string_index } => PoolEntryV::Str { string_index: *string_index },
            PoolEntry::Fieldref { class_index, name_and_type_index } => PoolEntryV::Fieldref {
                class_index: *class_index,
                name_and_type_index: *name_and_type_index,
            },
            PoolEntry::Methodref { class_index, name_and_type_index } => PoolEntryV::Methodref {
                class_index: *class_index,
                name_and_type_index: *name_and_type_index,
            },
            PoolEntry::NameAndType { name_index, descriptor_index } => PoolEntryV::NameAndType {
                name_index: *name_index,
                descriptor_index: *descriptor_index,
            },
        }
    }
}

/// One row of a method's exception table.  `catch_type` is a 1-based pool
/// index, with 0 meaning "any throwable".
#[derive(Clone, Copy, Debug, PartialEq, Eq, Structural)]
pub struct ExceptionTableEntry {
    pub start_pc: u16,
    pub end_pc: u16,
    pub handler_pc: u16,
    pub catch_type: u16,
}

/// A method's Code attribute: sizing, the instruction stream as
/// (byte offset, instruction) pairs, and the exception table.
pub struct Code {
    pub max_stack: u16,
    pub max_locals: u16,
    pub code: Vec<(u16, crate::instr::Instruction)>,
    pub exception_table: Vec<ExceptionTableEntry>,
}

/// The mathematical form of a Code attribute.
pub struct CodeV {
    pub max_stack: u16,
    pub max_locals: u16,
    pub code: Seq<(u16, crate::instr::Instruction)>,
    pub exception_table: Seq<ExceptionTableEntry>,
}

impl View for Code {
    type V = CodeV;

    open spec fn view(&self) -> CodeV {
        CodeV {
            max_stack: self.max_stack,
            max_locals: self.max_locals,
            code: self.code@,
            exception_table: self.exception_table@,
        }
    }
}

/// One method: name and descriptor pool indices, modifiers, and an optional
/// Code attribute (abstract and native methods lack one).
pub struct Method {
    pub access_flags: Vec<MethodAccess>,
    pub name_index: u16,
    pub descriptor_index: u16,
    pub code: Option<Code>,
}

/// The mathematical form of a method.
pub struct MethodV {
    pub access_flags: Seq<MethodAccess>,
    pub name_index: u16,
    pub descriptor_index: u16,
    pub code: Option<CodeV>,
}

impl View for Method {
    type V = MethodV;

    open spec fn view(&self) -> MethodV {
        MethodV {
            access_flags: self.access_flags@,
            name_index: self.name_index,
            descriptor_index: self.descriptor_index,
            code: match &self.code {
                Some(c) => Some(c@),
                None => None,
            },
        }
    }
}

/// A whole class, as the decoder hands it over: version numbers, modifiers,
/// the class's binary name, the optional source-file name, the 1-indexed
/// constant pool, and the methods in declaration order.
pub struct ClassModel {
    pub minor_version: u16,
    pub major_version: u16,
    pub access_flags: Vec<ClassAccess>,
    pub class_name: Vec<char>,
    pub source_file: Option<Vec<char>>,
    pub constant_pool: Vec<PoolEntry>,
    pub methods: Vec<Method>,
}

/// The mathematical form of a class.
pub struct ClassModelV {
    pub minor_version: u16,
    pub major_version: u16,
    pub access_flags: Seq<ClassAccess>,
    pub class_name: Seq<char>,
    pub source_file: Option<Seq<char>>,
    pub constant_pool: Seq<PoolEntryV>,
    pub methods: Seq<MethodV>,
}

impl View for ClassModel {
    type V = ClassModelV;

    open spec fn view(&self) -> ClassModelV {
        ClassModelV {
            minor_version: self.minor_version,
            major_version: self.major_version,
            access_flags: self.access_flags@,
            class_name: self.class_name@,
            source_file: match &self.source_file {
                Some(s) => Some(s@),
                None => None,
            },
            constant_pool: self.constant_pool@.map_values(|e: PoolEntry| e@),
            methods: self.methods@.map_values(|m: Method| m@),
        }
    }
}

/// Why a render was aborted.  Every error is fatal to the whole render:
/// nothing is caught and downgraded.
#[derive(Clone, Copy, Debug, PartialEq, Eq, Structural)]
pub enum RenderError {
    /// A constant-pool lookup index was zero, exceeded the pool size, or
    /// addressed an entry of the wrong variant for the requested accessor.
    OutOfRangeIndex,
    /// A method had no Code attribute where one was required for printing.
    MissingCode,
}

} // verus!
