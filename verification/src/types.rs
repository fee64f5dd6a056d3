//! The data model for a module's export table: the value-type and mutability
//! tags, the four structural signature kinds, their tagged union, and a named
//! export. All of it is plain immutable data produced by a decoder and
//! consumed by the renderer.

use vstd::prelude::*;

verus! {

/// The scalar, vector and reference kinds a value slot can hold.
#[derive(Clone, Copy, Debug, PartialEq, Eq, Structural)]
pub enum ValueType {
    I32,
    I64,
    F32,
    F64,
    V128,
    FuncRef,
    ExternRef,
}

/// Whether a global's value may change after instantiation.
#[derive(Clone, Copy, Debug, PartialEq, Eq, Structural)]
pub enum Mutability {
    Const,
    Var,
}

/// A function's type: parameter and result types, both in declared order.
#[derive(Clone, Debug)]
pub struct FuncSignature {
    pub params: Vec<ValueType>,
    pub results: Vec<ValueType>,
}

/// A global's type: its mutability and the type of its value.
#[derive(Clone, Copy, Debug)]
pub struct GlobalSignature {
    pub mutability: Mutability,
    pub ty: ValueType,
}

/// A table's type: element type, minimum size, and optional maximum size.
#[derive(Clone, Copy, Debug)]
pub struct TableSignature {
    pub elem: ValueType,
    pub min: u64,
    pub max: Option<u64>,
}

/// A linear memory's type: shared flag, address width (64-bit when `is64`),
/// minimum page count, and optional maximum page count.
#[derive(Clone, Copy, Debug)]
pub struct MemorySignature {
    pub shared: bool,
    pub is64: bool,
    pub min: u64,
    pub max: Option<u64>,
}

/// The type of one export: exactly one of the four structural kinds.
#[derive(Clone, Debug)]
pub enum ExternSignature {
    Func(FuncSignature),
    Global(GlobalSignature),
    Table(TableSignature),
    Memory(MemorySignature),
}

/// A named export: the name as the decoder reported it, and its type.
#[derive(Clone, Debug)]
pub struct Export {
    pub name: String,
    pub signature: ExternSignature,
}

impl Export {
    /// Pairs a name with its signature.
    pub fn new(name: String, signature: ExternSignature) -> (r: Export)
        ensures
            r.name == name,
            r.signature == signature,
    {
        Export { name, signature }
    }
}

} // verus!
