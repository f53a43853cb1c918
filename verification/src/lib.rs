//! A builtin symbol registry for a Solidity-like language frontend: a fixed
//! catalog of language-intrinsic functions (assertions, reverts, hashes,
//! ABI helpers, environment queries) together with their parameter and
//! return signatures, seeded once and consumed by call resolution and type
//! checking.
//!
//! The registry exposes two name-keyed mappings: `builtin_fns` builds the
//! descriptor catalog (name, synthetic location, visibility), and
//! `builtin_fns_inputs` binds each entry's concrete signature by requesting
//! interned type handles from an `AnalyzerLike` interning service.
use vstd::prelude::*;

mod analyzer;
mod builtin_fns;
mod name_map;
mod pt;

verus! {

pub use crate::analyzer::AnalyzerLike;
pub use crate::analyzer::Builtin;
pub use crate::analyzer::Interner;
pub use crate::builtin_fns::builtin_fns;
pub use crate::builtin_fns::builtin_fns_inputs;
pub use crate::name_map::NameMap;
pub use crate::pt::Function;
pub use crate::pt::FunctionAttribute;
pub use crate::pt::FunctionParam;
pub use crate::pt::FunctionReturn;
pub use crate::pt::FunctionTy;
pub use crate::pt::Identifier;
pub use crate::pt::Loc;
pub use crate::pt::StorageLocation;
pub use crate::pt::Visibility;

} // verus!
