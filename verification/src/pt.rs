//! Declaration-level data model for builtin symbols: source locations,
//! storage classes, visibilities and per-function metadata, in the shapes
//! the analyzer's symbol table and call resolver consume.
use vstd::prelude::*;

verus! {

/// A source location. Builtin symbols carry the `Builtin` sentinel rather
/// than a real span, so diagnostics can recognize "no source text exists
/// for this symbol" and never dereference a file offset.
#[derive(Debug, Clone, Copy, PartialEq, Eq)]
pub enum Loc {
    /// Sentinel for compiler intrinsics: nothing was parsed from source.
    Builtin,
    /// Sentinel for positions the language implies rather than spells out.
    Implicit,
    /// A real span: file number, start offset, end offset.
    File(usize, usize, usize),
}

/// Where a reference-like value's backing storage resides.
#[derive(Debug, Clone, Copy, PartialEq, Eq)]
pub enum StorageLocation {
    Memory(Loc),
    Storage(Loc),
    Calldata(Loc),
}

/// Declaration-level visibility of a function.
#[derive(Debug, Clone, Copy, PartialEq, Eq)]
pub enum Visibility {
    Internal(Option<Loc>),
    External(Option<Loc>),
    Public(Option<Loc>),
    Private(Option<Loc>),
}

/// A declaration-level attribute attached to a function.
#[derive(Debug, Clone, Copy, PartialEq, Eq)]
pub enum FunctionAttribute {
    Visibility(Visibility),
}

/// The kind of callable a declaration introduces.
#[derive(Debug, Clone, Copy, PartialEq, Eq)]
pub enum FunctionTy {
    Function,
    Constructor,
    Fallback,
    Receive,
    Modifier,
}

/// A named occurrence together with the location it was seen at.
#[derive(Debug, Clone, PartialEq, Eq)]
pub struct Identifier {
    pub loc: Loc,
    pub name: String,
}

/// Declaration-level metadata for one function: the descriptor the symbol
/// table is keyed on, independent of the function's type signature.
#[derive(Debug, Clone, PartialEq, Eq)]
pub struct Function {
    pub loc: Loc,
    pub ty: FunctionTy,
    pub name: Option<Identifier>,
    pub name_loc: Loc,
    pub attributes: Vec<FunctionAttribute>,
}

/// One formal parameter: an interned type handle, an optional storage
/// class, and an optional identifier (always absent for builtins, whose
/// parameters are positional only).
#[derive(Debug, Clone, PartialEq, Eq)]
pub struct FunctionParam {
    pub loc: Loc,
    pub ty: usize,
    pub storage: Option<StorageLocation>,
    pub name: Option<Identifier>,
}

/// One return value, with the same shape as a parameter.
#[derive(Debug, Clone, PartialEq, Eq)]
pub struct FunctionReturn {
    pub loc: Loc,
    pub ty: usize,
    pub storage: Option<StorageLocation>,
    pub name: Option<Identifier>,
}

} // verus!
