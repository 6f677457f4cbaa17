//! Semantics of effect providers: where a provider's data lives, how it is
//! reached, and which root providers a definition site registers.
use vstd::prelude::*;

use crate::ty::{HirAnalysisDb, TyId};

verus! {

/// The address space that a provider's data lives in.
#[derive(Debug, Clone, Copy, PartialEq, Eq, Hash, Structural)]
pub enum ProviderAddressSpace {
    Memory,
    Storage,
    Transient,
    Calldata,
    Code,
}

/// Human-readable name of an address space, as used in diagnostics.
pub open spec fn address_space_name(space: ProviderAddressSpace) -> Seq<char> {
    match space {
        ProviderAddressSpace::Memory => "memory"@,
        ProviderAddressSpace::Storage => "storage"@,
        ProviderAddressSpace::Transient => "transient storage"@,
        ProviderAddressSpace::Calldata => "calldata"@,
        ProviderAddressSpace::Code => "code"@,
    }
}

impl ProviderAddressSpace {
    /// The name of this address space as shown to users.
    pub fn pretty(self) -> (name: &'static str)
        ensures
            name@ == address_space_name(self),
            self == ProviderAddressSpace::Memory ==> name@ == "memory"@,
            self == ProviderAddressSpace::Storage ==> name@ == "storage"@,
            self == ProviderAddressSpace::Transient ==> name@ == "transient storage"@,
            self == ProviderAddressSpace::Calldata ==> name@ == "calldata"@,
            self == ProviderAddressSpace::Code ==> name@ == "code"@,
    {
        match self {
            ProviderAddressSpace::Memory => "memory",
            ProviderAddressSpace::Storage => "storage",
            ProviderAddressSpace::Transient => "transient storage",
            ProviderAddressSpace::Calldata => "calldata",
            ProviderAddressSpace::Code => "code",
        }
    }
}

/// How a provider reaches the value it provides.
#[derive(Debug, Clone, Copy, PartialEq, Eq, Hash, Structural)]
pub enum ProviderKind {
    RootObject,
    Handle,
    RawAddress,
}

/// How a provider is passed to the code that uses it.
#[derive(Debug, Clone, Copy, PartialEq, Eq, Hash, Structural)]
pub enum ProviderTransport {
    ByValue,
    ByPlace,
    ByTempPlace,
}

/// Everything the backend needs to know about a provider.
#[derive(Debug, Clone, Copy, PartialEq, Eq, Hash, Structural)]
pub struct ProviderSemantics {
    pub provider_ty: TyId,
    pub kind: ProviderKind,
    pub address_space: Option<ProviderAddressSpace>,
    pub target_ty: Option<TyId>,
    pub transport: ProviderTransport,
}

/// What an effect-handle type declares about the value it points at.
#[derive(Debug, Clone, Copy, PartialEq, Eq, Hash, Structural)]
pub struct EffectHandleMetadata {
    pub target_ty: TyId,
    pub address_space: Option<ProviderAddressSpace>,
}

/// The kind of definition that registers root providers.
#[derive(Debug, Clone, Copy, PartialEq, Eq, Hash, Structural)]
pub enum RootProviderSiteKind {
    Func,
    Contract,
    ContractInit,
    ContractRecvArm,
}

/// A root provider registered at a definition site.
#[derive(Debug, Clone, Copy, PartialEq, Eq, Hash, Structural)]
pub struct RootProviderRegistration {
    pub idx: u32,
    pub site_kind: RootProviderSiteKind,
    pub provider_ty: TyId,
}

/// Identifies a function definition.
#[derive(Debug, Clone, Copy, PartialEq, Eq, Hash, Structural)]
pub struct FuncId(pub u32);

/// Identifies a contract definition.
#[derive(Debug, Clone, Copy, PartialEq, Eq, Hash, Structural)]
pub struct ContractId(pub u32);

/// A place whose effect parameters may be provided by root providers.
#[derive(Debug, Clone, Copy, PartialEq, Eq, Hash, Structural)]
pub enum EffectParamSite {
    Func(FuncId),
    Contract(ContractId),
    ContractInit { contract: ContractId },
    ContractRecvArm { contract: ContractId, recv_idx: u32, arm_idx: u32 },
}

/// The site kind that registrations made for `site` carry.
pub open spec fn site_kind_of(site: EffectParamSite) -> RootProviderSiteKind {
    match site {
        EffectParamSite::Func(_) => RootProviderSiteKind::Func,
        EffectParamSite::Contract(_) => RootProviderSiteKind::Contract,
        EffectParamSite::ContractInit { .. } => RootProviderSiteKind::ContractInit,
        EffectParamSite::ContractRecvArm { .. } => RootProviderSiteKind::ContractRecvArm,
    }
}

/// The registrations of a scope whose default root effect type is `provider_ty`:
/// none when there is no such type, else one at index 0.
pub open spec fn spec_root_providers(
    site_kind: RootProviderSiteKind,
    provider_ty: Option<TyId>,
) -> Seq<RootProviderRegistration> {
    match provider_ty {
        None => Seq::empty(),
        Some(ty) => seq![RootProviderRegistration { idx: 0, site_kind, provider_ty: ty }],
    }
}

/// The root providers registered for a scope of kind `site_kind`, given the
/// scope's default root effect type (`None` when the scope has none).
pub fn registered_root_providers_for_scope(
    site_kind: RootProviderSiteKind,
    default_root_effect_ty: Option<TyId>,
) -> (regs: Vec<RootProviderRegistration>)
    ensures
        regs@ == spec_root_providers(site_kind, default_root_effect_ty),
{
    match default_root_effect_ty {
        None => Vec::new(),
        Some(provider_ty) => {
            let mut regs = Vec::new();
            regs.push(RootProviderRegistration { idx: 0, site_kind, provider_ty });
            regs
        },
    }
}

/// The root providers registered for `site`, given the default root effect
/// type of the site's scope (the function's scope, or the contract's).
pub fn registered_root_providers(
    site: EffectParamSite,
    default_root_effect_ty: Option<TyId>,
) -> (regs: Vec<RootProviderRegistration>)
    ensures
        regs@ == spec_root_providers(site_kind_of(site), default_root_effect_ty),
{
    match site {
        EffectParamSite::Func(_) => registered_root_providers_for_scope(
            RootProviderSiteKind::Func,
            default_root_effect_ty,
        ),
        EffectParamSite::Contract(_) => registered_root_providers_for_scope(
            RootProviderSiteKind::Contract,
            default_root_effect_ty,
        ),
        EffectParamSite::ContractInit { .. } => registered_root_providers_for_scope(
            RootProviderSiteKind::ContractInit,
            default_root_effect_ty,
        ),
        EffectParamSite::ContractRecvArm { .. } => registered_root_providers_for_scope(
            RootProviderSiteKind::ContractRecvArm,
            default_root_effect_ty,
        ),
    }
}

/// The kind of provider needed to reach a value of type `target_ty`: a
/// handle for aggregates (structs, arrays, tuples, enums), a raw address
/// otherwise. A borrow is looked through once.
pub open spec fn spec_provider_kind(db: HirAnalysisDb, target_ty: TyId) -> ProviderKind {
    let ty = match db.data(target_ty).borrow_inner {
        Some(inner) => inner,
        None => target_ty,
    };
    let d = db.data(ty);
    if d.is_struct || d.is_array || d.is_tuple || d.is_enum {
        ProviderKind::Handle
    } else {
        ProviderKind::RawAddress
    }
}

fn provider_kind_for_target_ty(db: &HirAnalysisDb, target_ty: TyId) -> (kind: ProviderKind)
    requires
        db.wf(),
        db.contains(target_ty),
    ensures
        kind == spec_provider_kind(*db, target_ty),
{
    let target_ty = if let Some(inner) = db.as_borrow(target_ty) {
        inner
    } else {
        target_ty
    };
    if db.is_struct(target_ty) || db.is_array(target_ty) || db.is_tuple(target_ty) || db.is_enum(
        target_ty,
    ) {
        ProviderKind::Handle
    } else {
        ProviderKind::RawAddress
    }
}

/// Semantics of a provider of type `provider_ty`.
/// A capability (`view`, `ref`, `mut`) provides its inner type from memory;
/// otherwise an effect handle provides what its metadata says; anything else
/// is a root object in memory. Providers are passed by value.
pub open spec fn spec_provider_semantics(
    db: HirAnalysisDb,
    provider_ty: TyId,
    handle_metadata: Option<EffectHandleMetadata>,
) -> ProviderSemantics {
    match db.data(provider_ty).capability {
        Some(cap) => ProviderSemantics {
            provider_ty,
            kind: spec_provider_kind(db, cap.inner),
            address_space: Some(ProviderAddressSpace::Memory),
            target_ty: Some(cap.inner),
            transport: ProviderTransport::ByValue,
        },
        None => match handle_metadata {
            Some(meta) => ProviderSemantics {
                provider_ty,
                kind: spec_provider_kind(db, meta.target_ty),
                address_space: meta.address_space,
                target_ty: Some(meta.target_ty),
                transport: ProviderTransport::ByValue,
            },
            None => ProviderSemantics {
                provider_ty,
                kind: ProviderKind::RootObject,
                address_space: Some(ProviderAddressSpace::Memory),
                target_ty: None,
                transport: ProviderTransport::ByValue,
            },
        },
    }
}

/// `handle_metadata` fits `db`: its target type is a type of `db`.
pub open spec fn metadata_in(db: HirAnalysisDb, handle_metadata: Option<EffectHandleMetadata>) -> bool {
    handle_metadata matches Some(meta) ==> db.contains(meta.target_ty)
}

/// Semantics of a provider of type `provider_ty`; `handle_metadata` is what
/// the type declares as an effect handle in the scope at hand (`None` when it
/// is not one).
pub fn provider_semantics(
    db: &HirAnalysisDb,
    provider_ty: TyId,
    handle_metadata: Option<EffectHandleMetadata>,
) -> (sem: ProviderSemantics)
    requires
        db.wf(),
        db.contains(provider_ty),
        metadata_in(*db, handle_metadata),
    ensures
        sem == spec_provider_semantics(*db, provider_ty, handle_metadata),
        sem.provider_ty == provider_ty,
        sem.transport == ProviderTransport::ByValue,
        db.data(provider_ty).capability matches Some(cap) ==> (sem.address_space == Some(
            ProviderAddressSpace::Memory,
        ) && sem.target_ty == Some(cap.inner)),
        db.data(provider_ty).capability is None ==> (handle_metadata matches Some(meta) ==> (
        sem.address_space == meta.address_space && sem.target_ty == Some(meta.target_ty))),
        db.data(provider_ty).capability is None && handle_metadata is None ==> (sem.kind
            == ProviderKind::RootObject && sem.address_space == Some(ProviderAddressSpace::Memory)
            && sem.target_ty is None),
        sem.target_ty matches Some(t) ==> sem.kind == spec_provider_kind(*db, t),
{
    if let Some(cap) = db.as_capability(provider_ty) {
        let inner = cap.inner;
        return ProviderSemantics {
            provider_ty,
            kind: provider_kind_for_target_ty(db, inner),
            address_space: Some(ProviderAddressSpace::Memory),
            target_ty: Some(inner),
            transport: ProviderTransport::ByValue,
        };
    }
    if let Some(metadata) = handle_metadata {
        return ProviderSemantics {
            provider_ty,
            kind: provider_kind_for_target_ty(db, metadata.target_ty),
            address_space: metadata.address_space,
            target_ty: Some(metadata.target_ty),
            transport: ProviderTransport::ByValue,
        };
    }
    ProviderSemantics {
        provider_ty,
        kind: ProviderKind::RootObject,
        address_space: Some(ProviderAddressSpace::Memory),
        target_ty: None,
        transport: ProviderTransport::ByValue,
    }
}

/// Semantics of a provider at a call that was specialized: a known target type
/// decides the kind and the target, a known address space replaces the
/// provider's own, and the transport is the call's.
pub open spec fn spec_specialized_semantics(
    db: HirAnalysisDb,
    provider_ty: TyId,
    handle_metadata: Option<EffectHandleMetadata>,
    target_ty: Option<TyId>,
    address_space: Option<ProviderAddressSpace>,
    transport: ProviderTransport,
) -> ProviderSemantics {
    let base = spec_provider_semantics(db, provider_ty, handle_metadata);
    ProviderSemantics {
        provider_ty: base.provider_ty,
        kind: match target_ty {
            Some(t) => spec_provider_kind(db, t),
            None => base.kind,
        },
        address_space: match address_space {
            Some(space) => Some(space),
            None => base.address_space,
        },
        target_ty: match target_ty {
            Some(t) => Some(t),
            None => base.target_ty,
        },
        transport,
    }
}

/// Semantics of a provider at a specialized call, where the target type, the
/// address space and the transport may be known from the call.
pub fn provider_semantics_for_specialized_call(
    db: &HirAnalysisDb,
    provider_ty: TyId,
    handle_metadata: Option<EffectHandleMetadata>,
    target_ty: Option<TyId>,
    address_space: Option<ProviderAddressSpace>,
    transport: ProviderTransport,
) -> (sem: ProviderSemantics)
    requires
        db.wf(),
        db.contains(provider_ty),
        metadata_in(*db, handle_metadata),
        target_ty matches Some(t) ==> db.contains(t),
    ensures
        sem == spec_specialized_semantics(
            *db,
            provider_ty,
            handle_metadata,
            target_ty,
            address_space,
            transport,
        ),
        sem.provider_ty == provider_ty,
        sem.transport == transport,
        address_space matches Some(space) ==> sem.address_space == Some(space),
        address_space is None ==> sem.address_space == spec_provider_semantics(
            *db,
            provider_ty,
            handle_metadata,
        ).address_space,
        target_ty matches Some(t) ==> (sem.target_ty == Some(t) && sem.kind == spec_provider_kind(
            *db,
            t,
        )),
        target_ty is None ==> (sem.target_ty == spec_provider_semantics(
            *db,
            provider_ty,
            handle_metadata,
        ).target_ty && sem.kind == spec_provider_semantics(
            *db,
            provider_ty,
            handle_metadata,
        ).kind),
{
    let mut semantics = provider_semantics(db, provider_ty, handle_metadata);
    if let Some(target_ty) = target_ty {
        semantics.kind = provider_kind_for_target_ty(db, target_ty);
        semantics.target_ty = Some(target_ty);
    }
    if let Some(address_space) = address_space {
        semantics.address_space = Some(address_space);
    }
    semantics.transport = transport;
    semantics
}

/// Identifies an enum definition.
#[derive(Debug, Clone, Copy, PartialEq, Eq, Hash, Structural)]
pub struct EnumId(pub u32);

/// Identifies a struct definition.
#[derive(Debug, Clone, Copy, PartialEq, Eq, Hash, Structural)]
pub struct StructId(pub u32);

/// An algebraic data type definition.
#[derive(Debug, Clone, Copy, PartialEq, Eq, Hash, Structural)]
pub enum AdtRef {
    Enum(EnumId),
    Struct(StructId),
    Contract(ContractId),
}

/// What a trait constant evaluated to.
#[derive(Debug, Clone)]
pub enum EvaluatedConst {
    /// A variant of the enum `enum_`, named `ident` (`None` when the variant
    /// has no name).
    EnumVariant { enum_: EnumId, ident: Option<String> },
    /// Anything that is not an enum variant (or not evaluated yet).
    Other,
}

/// The address space named by a variant of `core::effect_ref::AddressSpace`.
pub open spec fn space_for_variant_name(name: Seq<char>) -> Option<ProviderAddressSpace> {
    if name == "Memory"@ {
        Some(ProviderAddressSpace::Memory)
    } else if name == "Calldata"@ {
        Some(ProviderAddressSpace::Calldata)
    } else if name == "Storage"@ {
        Some(ProviderAddressSpace::Storage)
    } else if name == "TransientStorage"@ {
        Some(ProviderAddressSpace::Transient)
    } else if name == "Code"@ {
        Some(ProviderAddressSpace::Code)
    } else {
        None
    }
}

/// The address space that an effect handle's `SPACE` constant selects:
/// none while the handle's self type holds inference variables, none unless
/// the constant is a named variant of the `AddressSpace` enum, else the space
/// that the variant names.
pub open spec fn spec_effect_space(
    db: HirAnalysisDb,
    self_ty: TyId,
    space_const: Option<EvaluatedConst>,
    address_space_adt: Option<AdtRef>,
) -> Option<ProviderAddressSpace> {
    if db.data(self_ty).has_var {
        None
    } else {
        match (space_const, address_space_adt) {
            (Some(EvaluatedConst::EnumVariant { enum_, ident: Some(name) }), Some(adt)) => {
                if adt == AdtRef::Enum(enum_) {
                    space_for_variant_name(name@)
                } else {
                    None
                }
            },
            _ => None,
        }
    }
}

fn names(s: &String, lit: &str) -> (b: bool)
    ensures
        b == (s@ == lit@),
{
    *s == String::from_str(lit)
}

/// Reads the `SPACE` constant of an `EffectHandle` or `StaticSlot` instance
/// and maps the `core::effect_ref::AddressSpace` variant it names onto the
/// compiler's address spaces.
///
/// `self_ty` is the instance's self type; `space_const` is its `SPACE`
/// constant as evaluated (`None` when the instance has none);
/// `address_space_adt` is the definition that `core::effect_ref::AddressSpace`
/// resolves to in the scope at hand (`None` when it resolves to no ADT).
/// A self type that still holds inference variables selects no impl, so it
/// has no known space yet.
pub fn effect_space_from_trait_const(
    db: &HirAnalysisDb,
    self_ty: TyId,
    space_const: Option<&EvaluatedConst>,
    address_space_adt: Option<AdtRef>,
) -> (space: Option<ProviderAddressSpace>)
    requires
        db.contains(self_ty),
    ensures
        space == spec_effect_space(
            *db,
            self_ty,
            match space_const {
                Some(c) => Some(*c),
                None => None,
            },
            address_space_adt,
        ),
{
    if db.has_var(self_ty) {
        return None;
    }
    let (enum_, ident) = match space_const {
        Some(EvaluatedConst::EnumVariant { enum_, ident }) => (*enum_, ident),
        _ => return None,
    };
    let space_adt = match address_space_adt {
        Some(adt) => adt,
        None => return None,
    };
    if AdtRef::Enum(enum_) != space_adt {
        return None;
    }
    let name = match ident {
        Some(name) => name,
        None => return None,
    };
    if names(name, "Memory") {
        Some(ProviderAddressSpace::Memory)
    } else if names(name, "Calldata") {
        Some(ProviderAddressSpace::Calldata)
    } else if names(name, "Storage") {
        Some(ProviderAddressSpace::Storage)
    } else if names(name, "TransientStorage") {
        Some(ProviderAddressSpace::Transient)
    } else if names(name, "Code") {
        Some(ProviderAddressSpace::Code)
    } else {
        None
    }
}

/// The names of two different address spaces are different.
pub proof fn lemma_pretty_names_distinct(a: ProviderAddressSpace, b: ProviderAddressSpace)
    requires
        a != b,
    ensures
        address_space_name(a) != address_space_name(b),
{
    reveal_strlit("memory");
    reveal_strlit("storage");
    reveal_strlit("transient storage");
    reveal_strlit("calldata");
    reveal_strlit("code");
    let na = address_space_name(a);
    let nb = address_space_name(b);
    if na.len() == nb.len() {
        assert(na[0] != nb[0] || na[1] != nb[1]);
    }
}

/// The registrations of a site are at most one, at index 0, and carry the
/// site's kind and the scope's default root effect type.
pub proof fn lemma_root_registrations(site: EffectParamSite, default_root_effect_ty: Option<TyId>)
    ensures
        ({
            let regs = spec_root_providers(site_kind_of(site), default_root_effect_ty);
            &&& regs.len() <= 1
            &&& (regs.len() == 1 <==> default_root_effect_ty is Some)
            &&& forall|i: int|
                0 <= i < regs.len() ==> {
                    &&& #[trigger] regs[i].idx == 0
                    &&& regs[i].site_kind == site_kind_of(site)
                    &&& Some(regs[i].provider_ty) == default_root_effect_ty
                }
        }),
{
}

/// A borrow of a type that is not itself a borrow needs the same kind of
/// provider as the type.
pub proof fn lemma_kind_sees_through_borrow(db: HirAnalysisDb, borrow: TyId, ty: TyId)
    requires
        db.data(borrow).borrow_inner == Some(ty),
        db.data(ty).borrow_inner is None,
    ensures
        spec_provider_kind(db, borrow) == spec_provider_kind(db, ty),
{
}

/// The kind of a provider agrees with its target: a provider with a target
/// needs the kind that the target calls for, one without a target is a root
/// object.
pub open spec fn kind_fits_target(db: HirAnalysisDb, sem: ProviderSemantics) -> bool {
    match sem.target_ty {
        Some(t) => sem.kind == spec_provider_kind(db, t),
        None => sem.kind == ProviderKind::RootObject,
    }
}

/// The semantics of a provider, plain or at a specialized call, always has a
/// kind that fits its target, keeps the provider's type, and has an address
/// space unless an effect handle leaves it open.
pub proof fn lemma_semantics_consistent(
    db: HirAnalysisDb,
    provider_ty: TyId,
    handle_metadata: Option<EffectHandleMetadata>,
    target_ty: Option<TyId>,
    address_space: Option<ProviderAddressSpace>,
    transport: ProviderTransport,
)
    ensures
        kind_fits_target(db, spec_provider_semantics(db, provider_ty, handle_metadata)),
        kind_fits_target(
            db,
            spec_specialized_semantics(
                db,
                provider_ty,
                handle_metadata,
                target_ty,
                address_space,
                transport,
            ),
        ),
        spec_provider_semantics(db, provider_ty, handle_metadata).provider_ty == provider_ty,
        spec_specialized_semantics(
            db,
            provider_ty,
            handle_metadata,
            target_ty,
            address_space,
            transport,
        ).provider_ty == provider_ty,
        spec_provider_semantics(db, provider_ty, handle_metadata).transport
            == ProviderTransport::ByValue,
        spec_provider_semantics(db, provider_ty, handle_metadata).address_space is None
            ==> (handle_metadata matches Some(meta) && meta.address_space is None),
{
}

/// A call that specializes nothing and passes by value gives the provider's
/// plain semantics.
pub proof fn lemma_unspecialized_call(
    db: HirAnalysisDb,
    provider_ty: TyId,
    handle_metadata: Option<EffectHandleMetadata>,
)
    ensures
        spec_specialized_semantics(
            db,
            provider_ty,
            handle_metadata,
            None,
            None,
            ProviderTransport::ByValue,
        ) == spec_provider_semantics(db, provider_ty, handle_metadata),
{
}

/// Each address space is selected by exactly one variant name of
/// `core::effect_ref::AddressSpace`.
pub proof fn lemma_variant_names(space: ProviderAddressSpace, a: Seq<char>, b: Seq<char>)
    ensures
        exists|name: Seq<char>| space_for_variant_name(name) == Some(space),
        space_for_variant_name(a) == Some(space) && space_for_variant_name(b) == Some(space)
            ==> a == b,
{
    reveal_strlit("Memory");
    reveal_strlit("Calldata");
    reveal_strlit("Storage");
    reveal_strlit("TransientStorage");
    reveal_strlit("Code");
    assert("Memory"@.len() == 6);
    assert("Calldata"@.len() == 8);
    assert("Storage"@.len() == 7);
    assert("TransientStorage"@.len() == 16);
    assert("Code"@.len() == 4);
    let name = match space {
        ProviderAddressSpace::Memory => "Memory"@,
        ProviderAddressSpace::Calldata => "Calldata"@,
        ProviderAddressSpace::Storage => "Storage"@,
        ProviderAddressSpace::Transient => "TransientStorage"@,
        ProviderAddressSpace::Code => "Code"@,
    };
    assert(space_for_variant_name(name) == Some(space));
}

/// A provider needs a handle exactly when its target, seen through one
/// borrow, is a struct, an array, a tuple or an enum; otherwise it needs a
/// raw address.
pub proof fn lemma_provider_kind(db: HirAnalysisDb, target_ty: TyId)
    ensures
        ({
            let seen = match db.data(target_ty).borrow_inner {
                Some(inner) => db.data(inner),
                None => db.data(target_ty),
            };
            &&& spec_provider_kind(db, target_ty) == ProviderKind::Handle <==> (seen.is_struct
                || seen.is_array || seen.is_tuple || seen.is_enum)
            &&& spec_provider_kind(db, target_ty) != ProviderKind::RootObject
        }),
{
}

/// A capability (`view`, `ref` or `mut`) provides its inner type, from
/// memory and by value, whatever effect-handle metadata is at hand.
pub proof fn lemma_capability_semantics(
    db: HirAnalysisDb,
    provider_ty: TyId,
    handle_metadata: Option<EffectHandleMetadata>,
)
    requires
        db.data(provider_ty).capability is Some,
    ensures
        ({
            let cap = db.data(provider_ty).capability->0;
            let sem = spec_provider_semantics(db, provider_ty, handle_metadata);
            &&& sem.address_space == Some(ProviderAddressSpace::Memory)
            &&& sem.target_ty == Some(cap.inner)
            &&& sem.kind == spec_provider_kind(db, cap.inner)
            &&& sem.transport == ProviderTransport::ByValue
            &&& sem.provider_ty == provider_ty
        }),
{
}

/// A provider that is not a capability but an effect handle provides the
/// handle's target, in the handle's address space, by value.
pub proof fn lemma_handle_semantics(
    db: HirAnalysisDb,
    provider_ty: TyId,
    meta: EffectHandleMetadata,
)
    requires
        db.data(provider_ty).capability is None,
    ensures
        ({
            let sem = spec_provider_semantics(db, provider_ty, Some(meta));
            &&& sem.address_space == meta.address_space
            &&& sem.target_ty == Some(meta.target_ty)
            &&& sem.kind == spec_provider_kind(db, meta.target_ty)
            &&& sem.transport == ProviderTransport::ByValue
            &&& sem.provider_ty == provider_ty
        }),
{
}

/// Any other provider is a root object in memory, without a target, passed
/// by value.
pub proof fn lemma_root_object_semantics(db: HirAnalysisDb, provider_ty: TyId)
    requires
        db.data(provider_ty).capability is None,
    ensures
        spec_provider_semantics(db, provider_ty, None) == (ProviderSemantics {
            provider_ty,
            kind: ProviderKind::RootObject,
            address_space: Some(ProviderAddressSpace::Memory),
            target_ty: None,
            transport: ProviderTransport::ByValue,
        }),
{
}

/// At a specialized call, an address space supplied by the call is the
/// provider's address space, whether or not a target type is known; without
/// one the provider keeps its own. A target type supplied by the call is the
/// target and decides the kind; without one the provider keeps its own
/// target and kind. The transport is the call's.
pub proof fn lemma_specialized_overrides(
    db: HirAnalysisDb,
    provider_ty: TyId,
    handle_metadata: Option<EffectHandleMetadata>,
    target_ty: Option<TyId>,
    address_space: Option<ProviderAddressSpace>,
    transport: ProviderTransport,
)
    ensures
        ({
            let base = spec_provider_semantics(db, provider_ty, handle_metadata);
            let sem = spec_specialized_semantics(
                db,
                provider_ty,
                handle_metadata,
                target_ty,
                address_space,
                transport,
            );
            &&& sem.provider_ty == provider_ty
            &&& sem.transport == transport
            &&& (address_space matches Some(space) ==> sem.address_space == Some(space))
            &&& (address_space is None ==> sem.address_space == base.address_space)
            &&& (target_ty matches Some(t) ==> sem.target_ty == Some(t) && sem.kind
                == spec_provider_kind(db, t))
            &&& (target_ty is None ==> sem.target_ty == base.target_ty && sem.kind == base.kind)
        }),
{
}

/// A site registers, under its own kind, the default root effect type of its
/// scope: functions as `Func`, contracts as `Contract`, contract initializers
/// as `ContractInit`, receive arms as `ContractRecvArm`.
pub proof fn lemma_site_kinds(site: EffectParamSite, ty: TyId)
    ensures
        ({
            let regs = spec_root_providers(site_kind_of(site), Some(ty));
            &&& regs.len() == 1
            &&& regs[0].idx == 0
            &&& regs[0].provider_ty == ty
            &&& (site is Func ==> regs[0].site_kind == RootProviderSiteKind::Func)
            &&& (site is Contract ==> regs[0].site_kind == RootProviderSiteKind::Contract)
            &&& (site is ContractInit ==> regs[0].site_kind == RootProviderSiteKind::ContractInit)
            &&& (site is ContractRecvArm ==> regs[0].site_kind
                == RootProviderSiteKind::ContractRecvArm)
        }),
        spec_root_providers(site_kind_of(site), None).len() == 0,
{
}

/// The `SPACE` constant selects a space only for a self type without
/// inference variables, and only when it is a named variant of the enum that
/// `AddressSpace` resolves to.
pub proof fn lemma_effect_space_needs_named_variant(
    db: HirAnalysisDb,
    self_ty: TyId,
    space_const: Option<EvaluatedConst>,
    address_space_adt: Option<AdtRef>,
)
    ensures
        db.data(self_ty).has_var ==> spec_effect_space(
            db,
            self_ty,
            space_const,
            address_space_adt,
        ) is None,
        spec_effect_space(db, self_ty, space_const, address_space_adt) is Some ==> (
        space_const matches Some(EvaluatedConst::EnumVariant { enum_, ident: Some(_) })
            && address_space_adt == Some(AdtRef::Enum(enum_))),
{
}

/// For a self type without inference variables and a variant `name` of the
/// enum that `AddressSpace` resolves to, `Memory`, `Calldata`, `Storage`,
/// `TransientStorage` and `Code` select memory, calldata, storage, transient
/// storage and code, and any other name selects nothing.
pub proof fn lemma_effect_space_by_name(
    db: HirAnalysisDb,
    self_ty: TyId,
    enum_: EnumId,
    name: String,
)
    requires
        !db.data(self_ty).has_var,
    ensures
        ({
            let space = spec_effect_space(
                db,
                self_ty,
                Some(EvaluatedConst::EnumVariant { enum_, ident: Some(name) }),
                Some(AdtRef::Enum(enum_)),
            );
            &&& name@ == "Memory"@ ==> space == Some(ProviderAddressSpace::Memory)
            &&& name@ == "Calldata"@ ==> space == Some(ProviderAddressSpace::Calldata)
            &&& name@ == "Storage"@ ==> space == Some(ProviderAddressSpace::Storage)
            &&& name@ == "TransientStorage"@ ==> space == Some(ProviderAddressSpace::Transient)
            &&& name@ == "Code"@ ==> space == Some(ProviderAddressSpace::Code)
            &&& (name@ != "Memory"@ && name@ != "Calldata"@ && name@ != "Storage"@ && name@
                != "TransientStorage"@ && name@ != "Code"@) ==> space is None
        }),
{
    reveal_strlit("Memory");
    reveal_strlit("Calldata");
    reveal_strlit("Storage");
    reveal_strlit("TransientStorage");
    reveal_strlit("Code");
    assert("Memory"@.len() == 6);
    assert("Calldata"@.len() == 8);
    assert("Storage"@.len() == 7);
    assert("TransientStorage"@.len() == 16);
    assert("Code"@.len() == 4);
}

} // verus!
