use builtin_registry::builtin_fns;
use builtin_registry::builtin_fns_inputs;
use builtin_registry::AnalyzerLike;
use builtin_registry::Builtin;
use builtin_registry::Function;
use builtin_registry::FunctionAttribute;
use builtin_registry::FunctionTy;
use builtin_registry::Interner;
use builtin_registry::Loc;
use builtin_registry::StorageLocation;
use builtin_registry::Visibility;

const NAMES: [&str; 17] = [
    "assert",
    "require",
    "require_str",
    "revert",
    "revert_str",
    "selfdestruct",
    "keccak256",
    "ripemd160",
    "sha256",
    "gasleft",
    "blockhash",
    "abi.decode",
    "abi.encode",
    "abi.encodePacked",
    "abi.encodeWithSelector",
    "abi.encodeWithSignature",
    "abi.encodeCall",
];

fn memory() -> Option<StorageLocation> {
    Some(StorageLocation::Memory(Loc::Implicit))
}

#[test]
fn catalog_contains_every_builtin() {
    let m = builtin_fns();
    for name in NAMES {
        let d: &Function = m.get(name).expect("builtin missing from catalog");
        let id = d.name.as_ref().expect("builtin descriptor without a name");
        assert_eq!(id.name, name);
        assert_eq!(d.ty, FunctionTy::Function);
    }
}

#[test]
fn catalog_locations_are_synthetic() {
    let m = builtin_fns();
    for name in NAMES {
        let d = m.get(name).unwrap();
        assert_eq!(d.loc, Loc::Builtin);
        assert_eq!(d.name_loc, Loc::Builtin);
        assert_eq!(d.name.as_ref().unwrap().loc, Loc::Builtin);
    }
}

#[test]
fn catalog_visibility_is_internal() {
    let m = builtin_fns();
    for name in NAMES {
        let d = m.get(name).unwrap();
        assert_eq!(
            d.attributes,
            vec![FunctionAttribute::Visibility(Visibility::Internal(Some(Loc::Builtin)))]
        );
    }
}

#[test]
fn catalog_is_idempotent() {
    let m1 = builtin_fns();
    let m2 = builtin_fns();
    for name in NAMES {
        assert_eq!(m1.get(name).unwrap(), m2.get(name).unwrap());
    }
}

#[test]
fn signatures_cover_every_builtin() {
    let mut it = Interner::new();
    let s = builtin_fns_inputs(&mut it);
    for name in NAMES {
        assert!(s.get(name).is_some(), "builtin missing from signatures");
    }
}

#[test]
fn descriptors_and_signatures_share_keys() {
    let m = builtin_fns();
    let mut it = Interner::new();
    let s = builtin_fns_inputs(&mut it);
    for name in NAMES {
        assert_eq!(m.get(name).is_some(), s.get(name).is_some());
    }
    assert!(m.get("foo").is_none());
    assert!(s.get("foo").is_none());
}

#[test]
fn lookup_of_non_builtin_is_absent() {
    let m = builtin_fns();
    let mut it = Interner::new();
    let s = builtin_fns_inputs(&mut it);
    for name in ["foo", "Assert", "abi.encodecall", "", "require "] {
        assert!(m.get(name).is_none());
        assert!(s.get(name).is_none());
    }
}

#[test]
fn interner_shares_repeated_requests() {
    let mut it = Interner::new();
    let h1 = it.builtin_or_add(Builtin::Bool);
    let h2 = it.builtin_or_add(Builtin::Bool);
    assert_eq!(h1, h2);
    let b1 = it.builtin_or_add(Builtin::Bytes(32));
    let b2 = it.builtin_or_add(Builtin::Bytes(32));
    assert_eq!(b1, b2);
    assert_ne!(it.builtin_or_add(Builtin::Bytes(20)), b1);
    assert_ne!(it.builtin_or_add(Builtin::Bool), b1);
}

#[test]
fn boolean_handle_shared_between_assert_and_require() {
    let mut it = Interner::new();
    let s = builtin_fns_inputs(&mut it);
    let assert_entry = s.get("assert").unwrap();
    let require_entry = s.get("require").unwrap();
    assert_eq!(assert_entry.0[0].ty, require_entry.0[0].ty);
    assert_eq!(assert_entry.0[0].ty, it.builtin_or_add(Builtin::Bool));
}

#[test]
fn scenario_assert_signature() {
    let mut it = Interner::new();
    let s = builtin_fns_inputs(&mut it);
    let (ins, outs) = s.get("assert").unwrap();
    assert_eq!(ins.len(), 1);
    assert_eq!(ins[0].ty, it.builtin_or_add(Builtin::Bool));
    assert_eq!(ins[0].storage, None);
    assert_eq!(ins[0].name, None);
    assert_eq!(ins[0].loc, Loc::Builtin);
    assert!(outs.is_empty());
}

#[test]
fn scenario_require_str_signature() {
    let mut it = Interner::new();
    let s = builtin_fns_inputs(&mut it);
    let (ins, outs) = s.get("require_str").unwrap();
    assert_eq!(ins.len(), 2);
    assert_eq!(ins[0].ty, it.builtin_or_add(Builtin::Bool));
    assert_eq!(ins[0].storage, None);
    assert_eq!(ins[1].ty, it.builtin_or_add(Builtin::Str));
    assert_eq!(ins[1].storage, memory());
    assert!(outs.is_empty());
}

#[test]
fn scenario_keccak256_signature() {
    let mut it = Interner::new();
    let s = builtin_fns_inputs(&mut it);
    let (ins, outs) = s.get("keccak256").unwrap();
    assert_eq!(ins.len(), 1);
    assert_eq!(ins[0].ty, it.builtin_or_add(Builtin::DynamicBytes));
    assert_eq!(ins[0].storage, memory());
    assert_eq!(outs.len(), 1);
    assert_eq!(outs[0].ty, it.builtin_or_add(Builtin::Bytes(32)));
    assert_eq!(outs[0].storage, None);
}

#[test]
fn scenario_gasleft_signature() {
    let mut it = Interner::new();
    let s = builtin_fns_inputs(&mut it);
    let (ins, outs) = s.get("gasleft").unwrap();
    assert!(ins.is_empty());
    assert_eq!(outs.len(), 1);
    assert_eq!(outs[0].ty, it.builtin_or_add(Builtin::Uint(64)));
    assert_eq!(outs[0].storage, None);
}

#[test]
fn scenario_encode_with_selector_signature() {
    let mut it = Interner::new();
    let s = builtin_fns_inputs(&mut it);
    let (ins, outs) = s.get("abi.encodeWithSelector").unwrap();
    assert_eq!(ins.len(), 1);
    assert_eq!(ins[0].ty, it.builtin_or_add(Builtin::Bytes(4)));
    assert_eq!(ins[0].storage, None);
    assert_eq!(outs.len(), 1);
    assert_eq!(outs[0].ty, it.builtin_or_add(Builtin::DynamicBytes));
    assert_eq!(outs[0].storage, memory());
}

#[test]
fn variadic_builtins_have_empty_fixed_shapes() {
    let mut it = Interner::new();
    let s = builtin_fns_inputs(&mut it);
    for name in ["revert", "abi.encodeCall"] {
        let (ins, outs) = s.get(name).unwrap();
        assert!(ins.is_empty());
        assert!(outs.is_empty());
    }
    for name in ["abi.encode", "abi.encodePacked"] {
        let (ins, outs) = s.get(name).unwrap();
        assert!(ins.is_empty());
        assert_eq!(outs.len(), 1);
        assert_eq!(outs[0].storage, memory());
    }
    let (ins, outs) = s.get("abi.decode").unwrap();
    assert_eq!(ins.len(), 1);
    assert!(outs.is_empty());
}

#[test]
fn signature_shapes_are_idempotent_across_services() {
    let mut it1 = Interner::new();
    let s1 = builtin_fns_inputs(&mut it1);
    let mut it2 = Interner::new();
    // A service with prior contents hands out different handles.
    it2.builtin_or_add(Builtin::Uint(256));
    it2.builtin_or_add(Builtin::Bytes(1));
    let s2 = builtin_fns_inputs(&mut it2);
    for name in NAMES {
        let (ins1, outs1) = s1.get(name).unwrap();
        let (ins2, outs2) = s2.get(name).unwrap();
        assert_eq!(ins1.len(), ins2.len());
        assert_eq!(outs1.len(), outs2.len());
        for (a, b) in ins1.iter().zip(ins2.iter()) {
            assert_eq!(a.loc, b.loc);
            assert_eq!(a.storage, b.storage);
            assert_eq!(a.name, b.name);
        }
        for (a, b) in outs1.iter().zip(outs2.iter()) {
            assert_eq!(a.loc, b.loc);
            assert_eq!(a.storage, b.storage);
            assert_eq!(a.name, b.name);
        }
    }
}

#[test]
fn binder_reuses_handles_of_a_shared_service() {
    let mut it = Interner::new();
    let before = it.builtin_or_add(Builtin::Bool);
    let s = builtin_fns_inputs(&mut it);
    let after = it.builtin_or_add(Builtin::Bool);
    assert_eq!(before, after);
    assert_eq!(s.get("assert").unwrap().0[0].ty, before);
}
