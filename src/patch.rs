//! The `Patch` value: "leave unchanged" or "set to this value".

use vstd::prelude::*;
use vstd::laws_eq::obeys_concrete_eq;
use vstd::std_specs::cmp::PartialEqSpec;

verus! {

/// A possible update of a value: either keep the existing value (`Ignore`)
/// or replace it (`Update`).
#[derive(Debug, Clone, PartialEq, Eq, PartialOrd, Ord, Hash)]
pub enum Patch<T> {
    /// The existing value stays as it is.
    Ignore,
    /// The existing value is replaced by this one.
    Update(T),
}

impl<T> Patch<T> {
    /// The optional value that stands for this patch: `Update(v)` is
    /// `Some(v)`, `Ignore` is `None`.
    pub open spec fn to_opt(self) -> Option<T> {
        match self {
            Patch::Update(v) => Some(v),
            Patch::Ignore => None,
        }
    }

    /// The patch that stands for an optional value: `Some(v)` is
    /// `Update(v)`, `None` is `Ignore`.
    pub open spec fn from_opt(o: Option<T>) -> Patch<T> {
        match o {
            Some(v) => Patch::Update(v),
            None => Patch::Ignore,
        }
    }

    /// A patch that replaces the value with `value`.
    pub fn update(value: T) -> (r: Self)
        ensures
            r == Patch::Update(value),
    {
        Patch::Update(value)
    }

    /// A patch that leaves the value unchanged.
    pub fn ignore() -> (r: Self)
        ensures
            r == Patch::<T>::Ignore,
    {
        Patch::Ignore
    }

    /// Whether this patch leaves the value unchanged.
    pub fn is_ignore(&self) -> (r: bool)
        ensures
            r == (*self is Ignore),
    {
        matches!(self, Patch::Ignore)
    }

    /// The same patch, borrowing the new value.
    pub fn as_ref(&self) -> (r: Patch<&T>)
        ensures
            match *self {
                Patch::Update(v) => r == Patch::Update(&v),
                Patch::Ignore => r is Ignore,
            },
    {
        match self {
            Patch::Update(value) => Patch::Update(value),
            Patch::Ignore => Patch::Ignore,
        }
    }

    /// The optional value of this patch, borrowing the new value.
    pub fn as_option_ref(&self) -> (r: Option<&T>)
        ensures
            match *self {
                Patch::Update(v) => r == Some(&v),
                Patch::Ignore => r is None,
            },
    {
        match self {
            Patch::Update(value) => Some(value),
            Patch::Ignore => None,
        }
    }

    /// The optional value of this patch, holding a clone of the new value.
    pub fn as_option(&self) -> (r: Option<T>) where T: Clone
        ensures
            match *self {
                Patch::Update(v) => r matches Some(w) && cloned(v, w),
                Patch::Ignore => r is None,
            },
    {
        match self {
            Patch::Update(value) => Some(value.clone()),
            Patch::Ignore => None,
        }
    }

    /// The optional value of this patch, taking ownership of it.
    pub fn into_option(self) -> (r: Option<T>)
        ensures
            r == self.to_opt(),
    {
        match self {
            Patch::Update(value) => Some(value),
            Patch::Ignore => None,
        }
    }
}

impl<T> Default for Patch<T> {
    /// A patch that leaves the value unchanged.
    fn default() -> (r: Self)
        ensures
            r is Ignore,
    {
        Patch::Ignore
    }
}

impl<T> From<Patch<T>> for Option<T> {
    fn from(value: Patch<T>) -> (r: Option<T>) {
        value.into_option()
    }
}

impl<T> vstd::std_specs::convert::FromSpecImpl<Patch<T>> for Option<T> {
    open spec fn obeys_from_spec() -> bool {
        true
    }

    open spec fn from_spec(v: Patch<T>) -> Option<T> {
        v.to_opt()
    }
}

impl<T> From<Option<T>> for Patch<T> {
    fn from(value: Option<T>) -> (r: Patch<T>) {
        match value {
            Some(v) => Patch::Update(v),
            None => Patch::Ignore,
        }
    }
}

impl<T> vstd::std_specs::convert::FromSpecImpl<Option<T>> for Patch<T> {
    open spec fn obeys_from_spec() -> bool {
        true
    }

    open spec fn from_spec(v: Option<T>) -> Patch<T> {
        Patch::from_opt(v)
    }
}

impl<T: PartialEq> PartialEq<Option<T>> for Patch<T> {
    fn eq(&self, other: &Option<T>) -> (r: bool) {
        match (self, other) {
            (Patch::Update(value), Some(o)) => value == o,
            (Patch::Ignore, None) => true,
            _ => false,
        }
    }
}

impl<T: PartialEq> vstd::std_specs::cmp::PartialEqSpecImpl<Option<T>> for Patch<T> {
    open spec fn obeys_eq_spec() -> bool {
        <T as PartialEqSpec>::obeys_eq_spec()
    }

    open spec fn eq_spec(&self, other: &Option<T>) -> bool {
        match (*self, *other) {
            (Patch::Update(v), Some(o)) => v.eq_spec(&o),
            (Patch::Ignore, None) => true,
            _ => false,
        }
    }
}

/// Turning a patch into an optional value and back gives the same patch.
pub proof fn lemma_patch_to_option_round_trip<T>(p: Patch<T>)
    ensures
        Patch::from_opt(p.to_opt()) == p,
{
}

/// Turning an optional value into a patch and back gives the same optional
/// value.
pub proof fn lemma_option_to_patch_round_trip<T>(o: Option<T>)
    ensures
        Patch::from_opt(o).to_opt() == o,
{
}

/// A patch equals an optional value exactly when the patch's own optional
/// value is that value: `Update(v)` equals `Some(v)` and `Ignore` equals
/// `None`, while `Update(v)` never equals `None` and `Ignore` never equals
/// `Some(w)`.
pub proof fn lemma_patch_option_equality<T: PartialEq>(p: Patch<T>, o: Option<T>, v: T, w: T)
    requires
        obeys_concrete_eq::<T>(),
    ensures
        p.eq_spec(&o) <==> p.to_opt() == o,
        Patch::Update(v).eq_spec(&Some(v)),
        Patch::<T>::Ignore.eq_spec(&None),
        !Patch::Update(v).eq_spec(&None),
        !Patch::<T>::Ignore.eq_spec(&Some(w)),
{
    reveal(obeys_concrete_eq);
}

} // verus!
