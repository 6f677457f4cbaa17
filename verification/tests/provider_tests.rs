use fe_queries::provider::{
    effect_space_from_trait_const, provider_semantics, provider_semantics_for_specialized_call,
    registered_root_providers, registered_root_providers_for_scope, AdtRef, ContractId,
    EffectHandleMetadata, EffectParamSite, EnumId, EvaluatedConst, FuncId, ProviderAddressSpace,
    ProviderKind, ProviderSemantics, ProviderTransport, RootProviderRegistration,
    RootProviderSiteKind, StructId,
};
use fe_queries::ty::{Capability, CapabilityKind, HirAnalysisDb, TyData, TyId};

fn plain() -> TyData {
    TyData {
        capability: None,
        borrow_inner: None,
        is_struct: false,
        is_array: false,
        is_tuple: false,
        is_enum: false,
        has_var: false,
    }
}

struct Types {
    db: HirAnalysisDb,
    u256: TyId,
    point: TyId,
    arr: TyId,
    tup: TyId,
    color: TyId,
    ref_point: TyId,
    ref_u256: TyId,
    ref_ref_point: TyId,
    mut_point: TyId,
    view_ref_point: TyId,
    handle: TyId,
    generic: TyId,
}

fn types() -> Types {
    let mut db = HirAnalysisDb::new();
    let u256 = db.intern(plain()).unwrap();
    let point = db.intern(TyData { is_struct: true, ..plain() }).unwrap();
    let arr = db.intern(TyData { is_array: true, ..plain() }).unwrap();
    let tup = db.intern(TyData { is_tuple: true, ..plain() }).unwrap();
    let color = db.intern(TyData { is_enum: true, ..plain() }).unwrap();
    let ref_point = db
        .intern(TyData {
            capability: Some(Capability { kind: CapabilityKind::Ref, inner: point }),
            borrow_inner: Some(point),
            ..plain()
        })
        .unwrap();
    let ref_u256 = db
        .intern(TyData {
            capability: Some(Capability { kind: CapabilityKind::Ref, inner: u256 }),
            borrow_inner: Some(u256),
            ..plain()
        })
        .unwrap();
    let ref_ref_point = db
        .intern(TyData {
            capability: Some(Capability { kind: CapabilityKind::Ref, inner: ref_point }),
            borrow_inner: Some(ref_point),
            ..plain()
        })
        .unwrap();
    let mut_point = db
        .intern(TyData {
            capability: Some(Capability { kind: CapabilityKind::Mut, inner: point }),
            borrow_inner: Some(point),
            ..plain()
        })
        .unwrap();
    let view_ref_point = db
        .intern(TyData {
            capability: Some(Capability { kind: CapabilityKind::View, inner: ref_point }),
            ..plain()
        })
        .unwrap();
    let handle = db.intern(TyData { is_struct: true, ..plain() }).unwrap();
    let generic = db.intern(TyData { has_var: true, ..plain() }).unwrap();
    Types {
        db,
        u256,
        point,
        arr,
        tup,
        color,
        ref_point,
        ref_u256,
        ref_ref_point,
        mut_point,
        view_ref_point,
        handle,
        generic,
    }
}

#[test]
fn pretty_names() {
    assert_eq!(ProviderAddressSpace::Memory.pretty(), "memory");
    assert_eq!(ProviderAddressSpace::Storage.pretty(), "storage");
    assert_eq!(ProviderAddressSpace::Transient.pretty(), "transient storage");
    assert_eq!(ProviderAddressSpace::Calldata.pretty(), "calldata");
    assert_eq!(ProviderAddressSpace::Code.pretty(), "code");
}

#[test]
fn pretty_names_are_distinct() {
    let all = [
        ProviderAddressSpace::Memory,
        ProviderAddressSpace::Storage,
        ProviderAddressSpace::Transient,
        ProviderAddressSpace::Calldata,
        ProviderAddressSpace::Code,
    ];
    for a in all {
        for b in all {
            assert_eq!(a == b, a.pretty() == b.pretty());
        }
    }
}

#[test]
fn intern_refuses_unknown_inner_types() {
    let mut db = HirAnalysisDb::new();
    assert_eq!(db.intern(TyData { borrow_inner: Some(TyId(0)), ..plain() }), None);
    assert_eq!(
        db.intern(TyData {
            capability: Some(Capability { kind: CapabilityKind::View, inner: TyId(0) }),
            ..plain()
        }),
        None
    );
    assert_eq!(db.tys.len(), 0);
    assert_eq!(db.intern(plain()), Some(TyId(0)));
    assert_eq!(db.intern(TyData { borrow_inner: Some(TyId(0)), ..plain() }), Some(TyId(1)));
    assert_eq!(db.tys.len(), 2);
    assert!(db.as_borrow(TyId(1)) == Some(TyId(0)));
    assert!(db.as_capability(TyId(0)).is_none());
    assert!(!db.has_var(TyId(0)));
}

#[test]
fn capability_provides_its_inner_type_from_memory() {
    let t = types();
    let sem = provider_semantics(&t.db, t.ref_point, None);
    assert_eq!(
        sem,
        ProviderSemantics {
            provider_ty: t.ref_point,
            kind: ProviderKind::Handle,
            address_space: Some(ProviderAddressSpace::Memory),
            target_ty: Some(t.point),
            transport: ProviderTransport::ByValue,
        }
    );
    // a capability wins over any effect-handle metadata
    let meta = EffectHandleMetadata {
        target_ty: t.u256,
        address_space: Some(ProviderAddressSpace::Storage),
    };
    assert_eq!(provider_semantics(&t.db, t.mut_point, Some(meta)).target_ty, Some(t.point));
    assert_eq!(
        provider_semantics(&t.db, t.mut_point, Some(meta)).address_space,
        Some(ProviderAddressSpace::Memory)
    );
    let sem = provider_semantics(&t.db, t.ref_u256, None);
    assert_eq!(sem.kind, ProviderKind::RawAddress);
    assert_eq!(sem.target_ty, Some(t.u256));
}

#[test]
fn capability_kind_looks_through_one_borrow() {
    let t = types();
    // view of `ref Point`: the borrow is looked through, Point is a struct
    let sem = provider_semantics(&t.db, t.view_ref_point, None);
    assert_eq!(sem.kind, ProviderKind::Handle);
    assert_eq!(sem.target_ty, Some(t.ref_point));
    // ref of `ref Point`: the target `ref Point` is looked through
    let sem = provider_semantics(&t.db, t.ref_ref_point, None);
    assert_eq!(sem.kind, ProviderKind::Handle);
    assert_eq!(sem.target_ty, Some(t.ref_point));
    // a handle onto `ref ref Point`: only one borrow is looked through
    let meta = EffectHandleMetadata { target_ty: t.ref_ref_point, address_space: None };
    let sem = provider_semantics(&t.db, t.handle, Some(meta));
    assert_eq!(sem.kind, ProviderKind::RawAddress);
    assert_eq!(sem.target_ty, Some(t.ref_ref_point));
}

#[test]
fn handle_metadata_decides_target_and_space() {
    let t = types();
    for (target, kind) in [
        (t.point, ProviderKind::Handle),
        (t.arr, ProviderKind::Handle),
        (t.tup, ProviderKind::Handle),
        (t.color, ProviderKind::Handle),
        (t.u256, ProviderKind::RawAddress),
        (t.ref_point, ProviderKind::Handle),
        (t.ref_u256, ProviderKind::RawAddress),
    ] {
        let meta = EffectHandleMetadata {
            target_ty: target,
            address_space: Some(ProviderAddressSpace::Storage),
        };
        let sem = provider_semantics(&t.db, t.handle, Some(meta));
        assert_eq!(
            sem,
            ProviderSemantics {
                provider_ty: t.handle,
                kind,
                address_space: Some(ProviderAddressSpace::Storage),
                target_ty: Some(target),
                transport: ProviderTransport::ByValue,
            }
        );
    }
    let meta = EffectHandleMetadata { target_ty: t.point, address_space: None };
    assert_eq!(provider_semantics(&t.db, t.handle, Some(meta)).address_space, None);
}

#[test]
fn other_providers_are_root_objects() {
    let t = types();
    let sem = provider_semantics(&t.db, t.point, None);
    assert_eq!(
        sem,
        ProviderSemantics {
            provider_ty: t.point,
            kind: ProviderKind::RootObject,
            address_space: Some(ProviderAddressSpace::Memory),
            target_ty: None,
            transport: ProviderTransport::ByValue,
        }
    );
}

#[test]
fn specialized_call_overrides() {
    let t = types();
    let sem = provider_semantics_for_specialized_call(
        &t.db,
        t.point,
        None,
        Some(t.arr),
        Some(ProviderAddressSpace::Calldata),
        ProviderTransport::ByPlace,
    );
    assert_eq!(
        sem,
        ProviderSemantics {
            provider_ty: t.point,
            kind: ProviderKind::Handle,
            address_space: Some(ProviderAddressSpace::Calldata),
            target_ty: Some(t.arr),
            transport: ProviderTransport::ByPlace,
        }
    );
    // only the transport is known: the rest is the provider's own
    let sem = provider_semantics_for_specialized_call(
        &t.db,
        t.ref_u256,
        None,
        None,
        None,
        ProviderTransport::ByTempPlace,
    );
    assert_eq!(
        sem,
        ProviderSemantics {
            provider_ty: t.ref_u256,
            kind: ProviderKind::RawAddress,
            address_space: Some(ProviderAddressSpace::Memory),
            target_ty: Some(t.u256),
            transport: ProviderTransport::ByTempPlace,
        }
    );
    // a known target replaces the capability's target and kind
    let sem = provider_semantics_for_specialized_call(
        &t.db,
        t.ref_u256,
        None,
        Some(t.tup),
        None,
        ProviderTransport::ByValue,
    );
    assert_eq!(sem.kind, ProviderKind::Handle);
    assert_eq!(sem.target_ty, Some(t.tup));
    assert_eq!(sem.address_space, Some(ProviderAddressSpace::Memory));
}

#[test]
fn unspecialized_call_is_plain_semantics() {
    let t = types();
    let meta = EffectHandleMetadata { target_ty: t.color, address_space: None };
    for (ty, meta) in [
        (t.point, None),
        (t.ref_point, None),
        (t.handle, Some(meta)),
        (t.view_ref_point, Some(meta)),
    ] {
        assert_eq!(
            provider_semantics_for_specialized_call(
                &t.db,
                ty,
                meta,
                None,
                None,
                ProviderTransport::ByValue
            ),
            provider_semantics(&t.db, ty, meta)
        );
    }
}

#[test]
fn root_providers_per_site() {
    let ty = TyId(7);
    let contract = ContractId(3);
    for (site, kind) in [
        (EffectParamSite::Func(FuncId(1)), RootProviderSiteKind::Func),
        (EffectParamSite::Contract(contract), RootProviderSiteKind::Contract),
        (EffectParamSite::ContractInit { contract }, RootProviderSiteKind::ContractInit),
        (
            EffectParamSite::ContractRecvArm { contract, recv_idx: 0, arm_idx: 2 },
            RootProviderSiteKind::ContractRecvArm,
        ),
    ] {
        assert_eq!(
            registered_root_providers(site, Some(ty)),
            vec![RootProviderRegistration { idx: 0, site_kind: kind, provider_ty: ty }]
        );
        assert!(registered_root_providers(site, None).is_empty());
    }
}

#[test]
fn root_providers_for_scope() {
    assert!(registered_root_providers_for_scope(RootProviderSiteKind::Func, None).is_empty());
    assert_eq!(
        registered_root_providers_for_scope(RootProviderSiteKind::ContractInit, Some(TyId(0))),
        vec![RootProviderRegistration {
            idx: 0,
            site_kind: RootProviderSiteKind::ContractInit,
            provider_ty: TyId(0),
        }]
    );
}

fn variant(enum_: EnumId, name: &str) -> EvaluatedConst {
    EvaluatedConst::EnumVariant { enum_, ident: Some(name.to_string()) }
}

#[test]
fn space_const_names_address_space() {
    let t = types();
    let space = EnumId(4);
    let adt = Some(AdtRef::Enum(space));
    for (name, expected) in [
        ("Memory", ProviderAddressSpace::Memory),
        ("Calldata", ProviderAddressSpace::Calldata),
        ("Storage", ProviderAddressSpace::Storage),
        ("TransientStorage", ProviderAddressSpace::Transient),
        ("Code", ProviderAddressSpace::Code),
    ] {
        let c = variant(space, name);
        assert_eq!(effect_space_from_trait_const(&t.db, t.handle, Some(&c), adt), Some(expected));
    }
    for name in ["Transient", "memory", "", "Stack"] {
        let c = variant(space, name);
        assert_eq!(effect_space_from_trait_const(&t.db, t.handle, Some(&c), adt), None);
    }
}

#[test]
fn space_const_unknown_cases() {
    let t = types();
    let space = EnumId(4);
    let adt = Some(AdtRef::Enum(space));
    let memory = variant(space, "Memory");
    // a self type with inference variables has no known space yet
    assert_eq!(effect_space_from_trait_const(&t.db, t.generic, Some(&memory), adt), None);
    // no SPACE constant
    assert_eq!(effect_space_from_trait_const(&t.db, t.handle, None, adt), None);
    // the constant is not an enum variant
    assert_eq!(
        effect_space_from_trait_const(&t.db, t.handle, Some(&EvaluatedConst::Other), adt),
        None
    );
    // a variant of another enum
    let other = variant(EnumId(5), "Memory");
    assert_eq!(effect_space_from_trait_const(&t.db, t.handle, Some(&other), adt), None);
    // AddressSpace does not resolve, or resolves to something other than an enum
    assert_eq!(effect_space_from_trait_const(&t.db, t.handle, Some(&memory), None), None);
    assert_eq!(
        effect_space_from_trait_const(
            &t.db,
            t.handle,
            Some(&memory),
            Some(AdtRef::Struct(StructId(4)))
        ),
        None
    );
    assert_eq!(
        effect_space_from_trait_const(
            &t.db,
            t.handle,
            Some(&memory),
            Some(AdtRef::Contract(ContractId(4)))
        ),
        None
    );
    // a variant without a name
    let unnamed = EvaluatedConst::EnumVariant { enum_: space, ident: None };
    assert_eq!(effect_space_from_trait_const(&t.db, t.handle, Some(&unnamed), adt), None);
}
