//! Interned types, and what provider analysis reads of each.
use vstd::prelude::*;

verus! {

/// An interned type: an index into a `HirAnalysisDb`.
#[derive(Debug, Clone, Copy, PartialEq, Eq, Hash, Structural)]
pub struct TyId(pub u32);

/// The capability a capability type grants on its inner type.
#[derive(Debug, Clone, Copy, PartialEq, Eq, Hash, Structural)]
pub enum CapabilityKind {
    View,
    Ref,
    Mut,
}

/// A capability on an inner type.
#[derive(Debug, Clone, Copy, PartialEq, Eq, Hash, Structural)]
pub struct Capability {
    pub kind: CapabilityKind,
    pub inner: TyId,
}

/// The facts about one type that provider analysis reads.
#[derive(Debug, Clone, Copy, PartialEq, Eq, Hash, Structural)]
pub struct TyData {
    /// `Some(cap)` when the type is a capability on `cap.inner`.
    pub capability: Option<Capability>,
    /// `Some(inner)` when the type is a borrow of `inner`.
    pub borrow_inner: Option<TyId>,
    pub is_struct: bool,
    pub is_array: bool,
    pub is_tuple: bool,
    pub is_enum: bool,
    /// Whether the type still holds inference variables.
    pub has_var: bool,
}

/// The interned types of an analysis session: `TyId(i)` stands for `tys[i]`.
pub struct HirAnalysisDb {
    pub tys: Vec<TyData>,
}

impl HirAnalysisDb {
    /// `ty` names a type of this database.
    pub open spec fn contains(self, ty: TyId) -> bool {
        (ty.0 as int) < self.tys@.len()
    }

    /// The facts recorded for `ty`.
    pub open spec fn data(self, ty: TyId) -> TyData {
        self.tys@[ty.0 as int]
    }

    /// Every type that a recorded type refers to is itself recorded.
    pub open spec fn wf(self) -> bool {
        forall|i: int|
            #![trigger self.tys@[i]]
            0 <= i < self.tys@.len() ==> {
                &&& (self.tys@[i].capability matches Some(cap) ==> self.contains(cap.inner))
                &&& (self.tys@[i].borrow_inner matches Some(inner) ==> self.contains(inner))
            }
    }

    /// An empty database.
    pub fn new() -> (db: Self)
        ensures
            db.tys@.len() == 0,
            db.wf(),
    {
        HirAnalysisDb { tys: Vec::new() }
    }

    /// Interns `data` as a new type. Fails, leaving the database unchanged,
    /// when `data` refers to a type that is not recorded, or when the
    /// database is full.
    pub fn intern(&mut self, data: TyData) -> (ty: Option<TyId>)
        requires
            old(self).wf(),
        ensures
            final(self).wf(),
            match ty {
                Some(t) => {
                    &&& t.0 as int == old(self).tys@.len()
                    &&& final(self).tys@ == old(self).tys@.push(data)
                },
                None => final(self).tys@ == old(self).tys@,
            },
            ty is Some <==> {
                &&& old(self).tys@.len() < u32::MAX
                &&& (data.capability matches Some(cap) ==> old(self).contains(cap.inner))
                &&& (data.borrow_inner matches Some(inner) ==> old(self).contains(inner))
            },
    {
        let len = self.tys.len();
        if len >= u32::MAX as usize {
            return None;
        }
        if let Some(cap) = data.capability {
            if cap.inner.0 as usize >= len {
                return None;
            }
        }
        if let Some(inner) = data.borrow_inner {
            if inner.0 as usize >= len {
                return None;
            }
        }
        self.tys.push(data);
        proof {
            assert forall|i: int|
                #![trigger self.tys@[i]]
                0 <= i < self.tys@.len() implies {
                &&& (self.tys@[i].capability matches Some(cap) ==> self.contains(cap.inner))
                &&& (self.tys@[i].borrow_inner matches Some(inner) ==> self.contains(inner))
            } by {
                if i < len {
                    assert(self.tys@[i] == old(self).tys@[i]);
                }
            }
        }
        Some(TyId(len as u32))
    }

    /// `Some(cap)` when `ty` is a capability on `cap.inner`.
    pub fn as_capability(&self, ty: TyId) -> (cap: Option<Capability>)
        requires
            self.contains(ty),
        ensures
            cap == self.data(ty).capability,
    {
        self.tys[ty.0 as usize].capability
    }

    /// `Some(inner)` when `ty` is a borrow of `inner`.
    pub fn as_borrow(&self, ty: TyId) -> (inner: Option<TyId>)
        requires
            self.contains(ty),
        ensures
            inner == self.data(ty).borrow_inner,
    {
        self.tys[ty.0 as usize].borrow_inner
    }

    pub fn is_struct(&self, ty: TyId) -> (b: bool)
        requires
            self.contains(ty),
        ensures
            b == self.data(ty).is_struct,
    {
        self.tys[ty.0 as usize].is_struct
    }

    pub fn is_array(&self, ty: TyId) -> (b: bool)
        requires
            self.contains(ty),
        ensures
            b == self.data(ty).is_array,
    {
        self.tys[ty.0 as usize].is_array
    }

    pub fn is_tuple(&self, ty: TyId) -> (b: bool)
        requires
            self.contains(ty),
        ensures
            b == self.data(ty).is_tuple,
    {
        self.tys[ty.0 as usize].is_tuple
    }

    pub fn is_enum(&self, ty: TyId) -> (b: bool)
        requires
            self.contains(ty),
        ensures
            b == self.data(ty).is_enum,
    {
        self.tys[ty.0 as usize].is_enum
    }

    pub fn has_var(&self, ty: TyId) -> (b: bool)
        requires
            self.contains(ty),
        ensures
            b == self.data(ty).has_var,
    {
        self.tys[ty.0 as usize].has_var
    }
}

} // verus!
