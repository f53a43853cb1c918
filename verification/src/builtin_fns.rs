//! The builtin function catalog and signature binder: the fixed list of
//! language intrinsics, the exact descriptor each one carries, and the
//! interned parameter and return signatures bound against an
//! `AnalyzerLike` service.
use crate::analyzer::AnalyzerLike;
use crate::analyzer::Builtin;
use crate::name_map::NameMap;
use crate::pt::Function;
use crate::pt::FunctionAttribute;
use crate::pt::FunctionParam;
use crate::pt::FunctionReturn;
use crate::pt::FunctionTy;
use crate::pt::Identifier;
use crate::pt::Loc;
use crate::pt::StorageLocation;
use crate::pt::Visibility;
use vstd::prelude::*;

verus! {

/// The names of every builtin the language defines. Distinct arities or
/// behaviors get distinct names (`require` vs `require_str`): the registry
/// keys on exact names and models no overloading.
pub open spec fn builtin_names() -> Set<Seq<char>> {
    set![
        "assert"@,
        "require"@,
        "require_str"@,
        "revert"@,
        "revert_str"@,
        "selfdestruct"@,
        "keccak256"@,
        "ripemd160"@,
        "sha256"@,
        "gasleft"@,
        "blockhash"@,
        "abi.decode"@,
        "abi.encode"@,
        "abi.encodePacked"@,
        "abi.encodeWithSelector"@,
        "abi.encodeWithSignature"@,
        "abi.encodeCall"@,
    ]
}

/// What the descriptor of the builtin named `n` must hold: the synthetic
/// location sentinel everywhere a span could appear (builtins have no
/// source text), plain function kind, the name itself, and internal
/// visibility as the sole declared attribute.
pub open spec fn is_builtin_descriptor(d: Function, n: Seq<char>) -> bool {
    &&& d.loc == Loc::Builtin
    &&& d.ty == FunctionTy::Function
    &&& d.name matches Some(id) && id.loc == Loc::Builtin && id.name@ == n
    &&& d.name_loc == Loc::Builtin
    &&& d.attributes@ == seq![
        FunctionAttribute::Visibility(Visibility::Internal(Some(Loc::Builtin))),
    ]
}

/// The descriptor mapping the catalog builder produces: exactly the fixed
/// names, each bound to its builtin descriptor.
pub open spec fn is_descriptor_map(m: Map<Seq<char>, Function>) -> bool {
    &&& m.dom() == builtin_names()
    &&& forall|n: Seq<char>| #[trigger] m.dom().contains(n) ==> is_builtin_descriptor(m[n], n)
}

/// Ground facts about the builtin name literals: enough lengths and
/// characters to tell any two distinct names apart, so that keyed
/// insertions and lookups over the fixed list resolve.
pub open spec fn distinct_name_facts() -> bool {
    &&& "assert"@.len() == 6
    &&& "require"@.len() == 7
    &&& "require_str"@.len() == 11
    &&& "revert"@.len() == 6
    &&& "revert_str"@.len() == 10
    &&& "selfdestruct"@.len() == 12
    &&& "keccak256"@.len() == 9
    &&& "ripemd160"@.len() == 9
    &&& "sha256"@.len() == 6
    &&& "gasleft"@.len() == 7
    &&& "blockhash"@.len() == 9
    &&& "abi.decode"@.len() == 10
    &&& "abi.encode"@.len() == 10
    &&& "abi.encodePacked"@.len() == 16
    &&& "abi.encodeWithSelector"@.len() == 22
    &&& "abi.encodeWithSignature"@.len() == 23
    &&& "abi.encodeCall"@.len() == 14
    &&& "assert"@[0] == 'a'
    &&& "revert"@[0] == 'r'
    &&& "sha256"@[0] == 's'
    &&& "require"@[0] == 'r'
    &&& "gasleft"@[0] == 'g'
    &&& "keccak256"@[0] == 'k'
    &&& "ripemd160"@[0] == 'r'
    &&& "blockhash"@[0] == 'b'
    &&& "revert_str"@[0] == 'r'
    &&& "abi.decode"@[0] == 'a'
    &&& "abi.encode"@[0] == 'a'
    &&& "abi.decode"@[4] == 'd'
    &&& "abi.encode"@[4] == 'e'
}

/// Establish `distinct_name_facts` by revealing each name literal.
pub proof fn lemma_distinct_name_facts()
    ensures
        distinct_name_facts(),
{
    reveal_strlit("assert");
    reveal_strlit("require");
    reveal_strlit("require_str");
    reveal_strlit("revert");
    reveal_strlit("revert_str");
    reveal_strlit("selfdestruct");
    reveal_strlit("keccak256");
    reveal_strlit("ripemd160");
    reveal_strlit("sha256");
    reveal_strlit("gasleft");
    reveal_strlit("blockhash");
    reveal_strlit("abi.decode");
    reveal_strlit("abi.encode");
    reveal_strlit("abi.encodePacked");
    reveal_strlit("abi.encodeWithSelector");
    reveal_strlit("abi.encodeWithSignature");
    reveal_strlit("abi.encodeCall");
}

/// One builtin descriptor, named `name`.
fn descriptor(name: &str) -> (d: Function)
    ensures
        is_builtin_descriptor(d, name@),
{
    let mut attributes: Vec<FunctionAttribute> = Vec::new();
    attributes.push(FunctionAttribute::Visibility(Visibility::Internal(Some(Loc::Builtin))));
    proof {
        assert(attributes@ =~= seq![
            FunctionAttribute::Visibility(Visibility::Internal(Some(Loc::Builtin))),
        ]);
    }
    Function {
        loc: Loc::Builtin,
        ty: FunctionTy::Function,
        name: Some(Identifier { loc: Loc::Builtin, name: String::from_str(name) }),
        name_loc: Loc::Builtin,
        attributes,
    }
}

/// Build the catalog of builtin function descriptors: a pure function of
/// no inputs, producing the name-keyed mapping the symbol table consumes.
/// Every entry carries the synthetic location sentinel and internal
/// visibility; a name missing from the result is simply not a builtin.
pub fn builtin_fns() -> (r: NameMap<Function>)
    ensures
        is_descriptor_map(r@),
{
    proof {
        lemma_distinct_name_facts();
    }
    let mut m: NameMap<Function> = NameMap::new();
    m.insert(String::from_str("assert"), descriptor("assert"));
    m.insert(String::from_str("require"), descriptor("require"));
    m.insert(String::from_str("require_str"), descriptor("require_str"));
    m.insert(String::from_str("revert"), descriptor("revert"));
    m.insert(String::from_str("revert_str"), descriptor("revert_str"));
    m.insert(String::from_str("selfdestruct"), descriptor("selfdestruct"));
    m.insert(String::from_str("keccak256"), descriptor("keccak256"));
    m.insert(String::from_str("ripemd160"), descriptor("ripemd160"));
    m.insert(String::from_str("sha256"), descriptor("sha256"));
    m.insert(String::from_str("gasleft"), descriptor("gasleft"));
    m.insert(String::from_str("blockhash"), descriptor("blockhash"));
    m.insert(String::from_str("abi.decode"), descriptor("abi.decode"));
    m.insert(String::from_str("abi.encode"), descriptor("abi.encode"));
    m.insert(String::from_str("abi.encodePacked"), descriptor("abi.encodePacked"));
    m.insert(String::from_str("abi.encodeWithSelector"), descriptor("abi.encodeWithSelector"));
    m.insert(String::from_str("abi.encodeWithSignature"), descriptor("abi.encodeWithSignature"));
    m.insert(String::from_str("abi.encodeCall"), descriptor("abi.encodeCall"));
    proof {
        assert(m@.dom() =~= builtin_names());
    }
    m
}

/// The input shape of builtin `n`: for each formal parameter, in
/// declaration order, the primitive type tag to intern and the storage
/// class the language requires. Builtins with a variadic or
/// statically-unknowable argument shape (`revert`, `abi.decode`,
/// `abi.encode*`) list only the fixed part; call resolution special-cases
/// their arity rather than expecting a full signature match.
pub open spec fn input_shape(n: Seq<char>) -> Seq<(Builtin, Option<StorageLocation>)> {
    let mem = Some(StorageLocation::Memory(Loc::Implicit));
    if n == "assert"@ {
        seq![(Builtin::Bool, None)]
    } else if n == "require"@ {
        seq![(Builtin::Bool, None)]
    } else if n == "require_str"@ {
        seq![(Builtin::Bool, None), (Builtin::Str, mem)]
    } else if n == "revert_str"@ {
        seq![(Builtin::Str, mem)]
    } else if n == "selfdestruct"@ {
        seq![(Builtin::Address, None)]
    } else if n == "keccak256"@ || n == "ripemd160"@ || n == "sha256"@ || n == "abi.decode"@ {
        seq![(Builtin::DynamicBytes, mem)]
    } else if n == "blockhash"@ {
        seq![(Builtin::Uint(64), mem)]
    } else if n == "abi.encodeWithSelector"@ {
        seq![(Builtin::Bytes(4), None)]
    } else if n == "abi.encodeWithSignature"@ {
        seq![(Builtin::Str, None)]
    } else {
        Seq::empty()
    }
}

/// The output shape of builtin `n`, in the same terms as `input_shape`.
pub open spec fn output_shape(n: Seq<char>) -> Seq<(Builtin, Option<StorageLocation>)> {
    let mem = Some(StorageLocation::Memory(Loc::Implicit));
    if n == "keccak256"@ || n == "sha256"@ || n == "blockhash"@ {
        seq![(Builtin::Bytes(32), None)]
    } else if n == "ripemd160"@ {
        seq![(Builtin::Bytes(20), None)]
    } else if n == "gasleft"@ {
        seq![(Builtin::Uint(64), None)]
    } else if n == "abi.encode"@ || n == "abi.encodePacked"@ || n == "abi.encodeWithSelector"@
        || n == "abi.encodeWithSignature"@ {
        seq![(Builtin::DynamicBytes, mem)]
    } else {
        Seq::empty()
    }
}

/// Every primitive type tag the signature binder requests.
pub open spec fn used_builtins() -> Set<Builtin> {
    set![
        Builtin::Bool,
        Builtin::Str,
        Builtin::Address,
        Builtin::DynamicBytes,
        Builtin::Bytes(4),
        Builtin::Bytes(20),
        Builtin::Bytes(32),
        Builtin::Uint(64),
    ]
}

/// `m1` extends `m0`: every tag already interned keeps its handle. The
/// binder never reassigns a handle, so sharing a service between callers
/// is safe.
pub open spec fn interner_extends(m0: Map<Builtin, usize>, m1: Map<Builtin, usize>) -> bool {
    forall|b: Builtin| #[trigger] m0.dom().contains(b)
        ==> m1.dom().contains(b) && m1[b] == m0[b]
}

/// A formal parameter realizes one slot of a shape against the interner
/// state `f`: synthetic location, the handle `f` assigns to the slot's
/// tag, the slot's storage class, and no name (builtin parameters are
/// positional only).
pub open spec fn param_matches(
    p: FunctionParam,
    t: (Builtin, Option<StorageLocation>),
    f: Map<Builtin, usize>,
) -> bool {
    &&& p.loc == Loc::Builtin
    &&& f.dom().contains(t.0)
    &&& p.ty == f[t.0]
    &&& p.storage == t.1
    &&& p.name is None
}

/// A return value realizes one slot of a shape, as `param_matches` does.
pub open spec fn ret_matches(
    p: FunctionReturn,
    t: (Builtin, Option<StorageLocation>),
    f: Map<Builtin, usize>,
) -> bool {
    &&& p.loc == Loc::Builtin
    &&& f.dom().contains(t.0)
    &&& p.ty == f[t.0]
    &&& p.storage == t.1
    &&& p.name is None
}

/// A signature entry realizes the shapes of builtin `n`, slot for slot
/// and in declaration order, against the interner state `f`.
pub open spec fn entry_matches(
    ins: Seq<FunctionParam>,
    outs: Seq<FunctionReturn>,
    n: Seq<char>,
    f: Map<Builtin, usize>,
) -> bool {
    &&& ins.len() == input_shape(n).len()
    &&& forall|i: int| 0 <= i < ins.len() ==> param_matches(#[trigger] ins[i], input_shape(n)[i], f)
    &&& outs.len() == output_shape(n).len()
    &&& forall|i: int| 0 <= i < outs.len() ==> ret_matches(#[trigger] outs[i], output_shape(n)[i], f)
}

/// The signature mapping the binder produces against interner state `f`:
/// exactly the fixed names, each bound to an entry realizing its shapes.
pub open spec fn is_signature_map(
    m: Map<Seq<char>, (Vec<FunctionParam>, Vec<FunctionReturn>)>,
    f: Map<Builtin, usize>,
) -> bool {
    &&& m.dom() == builtin_names()
    &&& forall|n: Seq<char>| #[trigger] m.dom().contains(n) ==> entry_matches(m[n].0@, m[n].1@, n, f)
}

/// One formal parameter for the builtin being bound: interns `b` and
/// attaches the given storage class.
fn mk_param<A: AnalyzerLike>(
    analyzer: &mut A,
    b: Builtin,
    storage: Option<StorageLocation>,
) -> (p: FunctionParam)
    ensures
        final(analyzer).interned().dom() == old(analyzer).interned().dom().insert(b),
        interner_extends(old(analyzer).interned(), final(analyzer).interned()),
        final(analyzer).interned().dom().contains(b),
        p.ty == final(analyzer).interned()[b],
        p.loc == Loc::Builtin,
        p.storage == storage,
        p.name is None,
{
    FunctionParam { loc: Loc::Builtin, ty: analyzer.builtin_or_add(b), storage: storage, name: None }
}

/// One return value for the builtin being bound, as `mk_param`.
fn mk_ret<A: AnalyzerLike>(
    analyzer: &mut A,
    b: Builtin,
    storage: Option<StorageLocation>,
) -> (p: FunctionReturn)
    ensures
        final(analyzer).interned().dom() == old(analyzer).interned().dom().insert(b),
        interner_extends(old(analyzer).interned(), final(analyzer).interned()),
        final(analyzer).interned().dom().contains(b),
        p.ty == final(analyzer).interned()[b],
        p.loc == Loc::Builtin,
        p.storage == storage,
        p.name is None,
{
    FunctionReturn { loc: Loc::Builtin, ty: analyzer.builtin_or_add(b), storage: storage, name: None }
}

/// Bind the concrete signature of every builtin against the interning
/// service: one `builtin_or_add` request per parameter and per return
/// value, in declaration order. Tags already interned keep their handles,
/// so the binder never creates duplicate type entries; the resulting
/// mapping realizes each builtin's shapes against the service's final
/// state.
pub fn builtin_fns_inputs<A: AnalyzerLike>(analyzer: &mut A) -> (r: NameMap<
    (Vec<FunctionParam>, Vec<FunctionReturn>),
>)
    ensures
        is_signature_map(r@, final(analyzer).interned()),
        interner_extends(old(analyzer).interned(), final(analyzer).interned()),
        final(analyzer).interned().dom() == old(analyzer).interned().dom() + used_builtins(),
{
    proof {
        lemma_distinct_name_facts();
    }
    let mut m: NameMap<(Vec<FunctionParam>, Vec<FunctionReturn>)> = NameMap::new();
    let mem = Some(StorageLocation::Memory(Loc::Implicit));

    let mut ins: Vec<FunctionParam> = Vec::new();
    ins.push(mk_param(analyzer, Builtin::Bool, None));
    m.insert(String::from_str("assert"), (ins, Vec::new()));

    let mut ins: Vec<FunctionParam> = Vec::new();
    ins.push(mk_param(analyzer, Builtin::Bool, None));
    m.insert(String::from_str("require"), (ins, Vec::new()));

    let mut ins: Vec<FunctionParam> = Vec::new();
    ins.push(mk_param(analyzer, Builtin::Bool, None));
    ins.push(mk_param(analyzer, Builtin::Str, mem));
    m.insert(String::from_str("require_str"), (ins, Vec::new()));

    m.insert(String::from_str("revert"), (Vec::new(), Vec::new()));

    let mut ins: Vec<FunctionParam> = Vec::new();
    ins.push(mk_param(analyzer, Builtin::Str, mem));
    m.insert(String::from_str("revert_str"), (ins, Vec::new()));

    let mut ins: Vec<FunctionParam> = Vec::new();
    ins.push(mk_param(analyzer, Builtin::Address, None));
    m.insert(String::from_str("selfdestruct"), (ins, Vec::new()));

    let mut ins: Vec<FunctionParam> = Vec::new();
    ins.push(mk_param(analyzer, Builtin::DynamicBytes, mem));
    let mut outs: Vec<FunctionReturn> = Vec::new();
    outs.push(mk_ret(analyzer, Builtin::Bytes(32), None));
    m.insert(String::from_str("keccak256"), (ins, outs));

    let mut ins: Vec<FunctionParam> = Vec::new();
    ins.push(mk_param(analyzer, Builtin::DynamicBytes, mem));
    let mut outs: Vec<FunctionReturn> = Vec::new();
    outs.push(mk_ret(analyzer, Builtin::Bytes(20), None));
    m.insert(String::from_str("ripemd160"), (ins, outs));

    let mut ins: Vec<FunctionParam> = Vec::new();
    ins.push(mk_param(analyzer, Builtin::DynamicBytes, mem));
    let mut outs: Vec<FunctionReturn> = Vec::new();
    outs.push(mk_ret(analyzer, Builtin::Bytes(32), None));
    m.insert(String::from_str("sha256"), (ins, outs));

    let mut outs: Vec<FunctionReturn> = Vec::new();
    outs.push(mk_ret(analyzer, Builtin::Uint(64), None));
    m.insert(String::from_str("gasleft"), (Vec::new(), outs));

    let mut ins: Vec<FunctionParam> = Vec::new();
    ins.push(mk_param(analyzer, Builtin::Uint(64), mem));
    let mut outs: Vec<FunctionReturn> = Vec::new();
    outs.push(mk_ret(analyzer, Builtin::Bytes(32), None));
    m.insert(String::from_str("blockhash"), (ins, outs));

    let mut ins: Vec<FunctionParam> = Vec::new();
    ins.push(mk_param(analyzer, Builtin::DynamicBytes, mem));
    m.insert(String::from_str("abi.decode"), (ins, Vec::new()));

    let mut outs: Vec<FunctionReturn> = Vec::new();
    outs.push(mk_ret(analyzer, Builtin::DynamicBytes, mem));
    m.insert(String::from_str("abi.encode"), (Vec::new(), outs));

    let mut outs: Vec<FunctionReturn> = Vec::new();
    outs.push(mk_ret(analyzer, Builtin::DynamicBytes, mem));
    m.insert(String::from_str("abi.encodePacked"), (Vec::new(), outs));

    let mut ins: Vec<FunctionParam> = Vec::new();
    ins.push(mk_param(analyzer, Builtin::Bytes(4), None));
    let mut outs: Vec<FunctionReturn> = Vec::new();
    outs.push(mk_ret(analyzer, Builtin::DynamicBytes, mem));
    m.insert(String::from_str("abi.encodeWithSelector"), (ins, outs));

    let mut ins: Vec<FunctionParam> = Vec::new();
    ins.push(mk_param(analyzer, Builtin::Str, None));
    let mut outs: Vec<FunctionReturn> = Vec::new();
    outs.push(mk_ret(analyzer, Builtin::DynamicBytes, mem));
    m.insert(String::from_str("abi.encodeWithSignature"), (ins, outs));

    m.insert(String::from_str("abi.encodeCall"), (Vec::new(), Vec::new()));

    proof {
        assert(m@.dom() =~= builtin_names());
        assert(analyzer.interned().dom() =~= old(analyzer).interned().dom() + used_builtins());
        assert forall|n: Seq<char>| #[trigger] m@.dom().contains(n) implies entry_matches(
            m@[n].0@,
            m@[n].1@,
            n,
            analyzer.interned(),
        ) by {
        }
    }
    m
}

/// The two mappings stay in lock step: the descriptor catalog and the
/// signature mapping carry exactly the same keys, namely the fixed builtin
/// names, each exactly once (a mapping binds a key at most once).
pub proof fn lemma_mappings_lockstep(
    d: Map<Seq<char>, Function>,
    s: Map<Seq<char>, (Vec<FunctionParam>, Vec<FunctionReturn>)>,
    f: Map<Builtin, usize>,
)
    requires
        is_descriptor_map(d),
        is_signature_map(s, f),
    ensures
        d.dom() == builtin_names(),
        s.dom() == builtin_names(),
        d.dom() == s.dom(),
{
}

/// Every descriptor carries the synthetic location sentinel wherever a
/// span could appear — never a real source span: builtins are compiler
/// intrinsics with no source text behind them.
pub proof fn lemma_locations_synthetic(d: Map<Seq<char>, Function>)
    requires
        is_descriptor_map(d),
    ensures
        forall|n: Seq<char>| #[trigger] d.dom().contains(n) ==> {
            &&& d[n].loc is Builtin
            &&& !(d[n].loc is File)
            &&& d[n].name_loc is Builtin
            &&& d[n].name matches Some(id) && id.loc is Builtin
        },
{
}

/// Every descriptor's sole declared attribute is internal visibility:
/// builtins are never externally callable as if declared on a contract
/// interface.
pub proof fn lemma_visibility_internal(d: Map<Seq<char>, Function>)
    requires
        is_descriptor_map(d),
    ensures
        forall|n: Seq<char>| #[trigger] d.dom().contains(n) ==> d[n].attributes@ == seq![
            FunctionAttribute::Visibility(Visibility::Internal(Some(Loc::Builtin))),
        ],
{
}

/// Two descriptors agree structurally: same locations, kind, name content
/// and attributes.
pub open spec fn descriptor_alike(a: Function, b: Function) -> bool {
    &&& a.loc == b.loc
    &&& a.ty == b.ty
    &&& a.name_loc == b.name_loc
    &&& match (a.name, b.name) {
        (Some(x), Some(y)) => x.loc == y.loc && x.name@ == y.name@,
        (None, None) => true,
        _ => false,
    }
    &&& a.attributes@ == b.attributes@
}

/// Building the catalog is deterministic: any two descriptor mappings the
/// builder can produce are structurally identical, key for key.
pub proof fn lemma_catalog_idempotent(d1: Map<Seq<char>, Function>, d2: Map<Seq<char>, Function>)
    requires
        is_descriptor_map(d1),
        is_descriptor_map(d2),
    ensures
        d1.dom() == d2.dom(),
        forall|n: Seq<char>| #[trigger] d1.dom().contains(n) ==> descriptor_alike(d1[n], d2[n]),
{
}

/// Two parameter lists agree in arity, order, locations, storage classes
/// and (absent) names; only the interned handles may differ.
pub open spec fn params_alike(a: Seq<FunctionParam>, b: Seq<FunctionParam>) -> bool {
    &&& a.len() == b.len()
    &&& forall|i: int| 0 <= i < a.len() ==> {
        &&& (#[trigger] a[i]).loc == b[i].loc
        &&& a[i].storage == b[i].storage
        &&& a[i].name == b[i].name
    }
}

/// Two return lists agree as `params_alike` does.
pub open spec fn rets_alike(a: Seq<FunctionReturn>, b: Seq<FunctionReturn>) -> bool {
    &&& a.len() == b.len()
    &&& forall|i: int| 0 <= i < a.len() ==> {
        &&& (#[trigger] a[i]).loc == b[i].loc
        &&& a[i].storage == b[i].storage
        &&& a[i].name == b[i].name
    }
}

/// Binding signatures is shape-deterministic: against any two interning
/// services, the binder produces the same key set and, per builtin, the
/// same arity, order and storage classes. Only the opaque handles depend
/// on the service instance.
pub proof fn lemma_signatures_idempotent(
    s1: Map<Seq<char>, (Vec<FunctionParam>, Vec<FunctionReturn>)>,
    f1: Map<Builtin, usize>,
    s2: Map<Seq<char>, (Vec<FunctionParam>, Vec<FunctionReturn>)>,
    f2: Map<Builtin, usize>,
)
    requires
        is_signature_map(s1, f1),
        is_signature_map(s2, f2),
    ensures
        s1.dom() == s2.dom(),
        forall|n: Seq<char>| #[trigger] s1.dom().contains(n) ==> params_alike(s1[n].0@, s2[n].0@)
            && rets_alike(s1[n].1@, s2[n].1@),
{
}

/// Requesting the same primitive type twice yields the same handle: the
/// boolean parameter of `assert` and the boolean parameter of `require`
/// carry one interned handle, so the registry never causes duplicate type
/// entries in the interner.
pub proof fn lemma_boolean_handle_shared(
    s: Map<Seq<char>, (Vec<FunctionParam>, Vec<FunctionReturn>)>,
    f: Map<Builtin, usize>,
)
    requires
        is_signature_map(s, f),
    ensures
        s["assert"@].0@[0].ty == f[Builtin::Bool],
        s["require"@].0@[0].ty == f[Builtin::Bool],
        s["assert"@].0@[0].ty == s["require"@].0@[0].ty,
{
    lemma_distinct_name_facts();
    assert(builtin_names().contains("assert"@));
    assert(builtin_names().contains("require"@));
}

} // verus!
