//! The registry of models and the shape that a field's type presents in a
//! mode.

use vstd::prelude::*;
use crate::schema::{view_name, make_view_name, Mode, TypeRef};

verus! {

/// Which of the three views a registered model has.
#[derive(Debug, Clone, Copy, PartialEq, Eq, Structural)]
pub struct ModelModes {
    pub get: bool,
    pub create: bool,
    pub patch: bool,
}

impl ModelModes {
    pub open spec fn has(self, m: Mode) -> bool {
        match m {
            Mode::Get => self.get,
            Mode::Create => self.create,
            Mode::Patch => self.patch,
        }
    }

    /// Whether the model has a view for mode `m`.
    pub fn has_mode(&self, m: Mode) -> (r: bool)
        ensures
            r == self.has(m),
    {
        match m {
            Mode::Get => self.get,
            Mode::Create => self.create,
            Mode::Patch => self.patch,
        }
    }
}

/// A model that is known to the registry, with the views it has.
#[derive(Debug, Clone)]
pub struct RegisteredModel {
    pub name: String,
    pub modes: ModelModes,
}

/// The models whose views are known, keyed by name; a later registration
/// of a name stands over an earlier one.
#[derive(Debug, Clone)]
pub struct Registry {
    models: Vec<RegisteredModel>,
}

/// The views of the model named `name` in the registry entries `s`: the
/// last entry of that name decides.
pub open spec fn lookup_in(s: Seq<(Seq<char>, ModelModes)>, name: Seq<char>) -> Option<ModelModes>
    decreases s.len(),
{
    if s.len() == 0 {
        None
    } else if s.last().0 == name {
        Some(s.last().1)
    } else {
        lookup_in(s.drop_last(), name)
    }
}

/// The base type that a value of type `ty` presents in mode `m`: a scalar
/// itself, a model its own view for `m`. `None` where the model is not
/// registered or has no view for `m`.
pub open spec fn presented(reg: Seq<(Seq<char>, ModelModes)>, ty: TypeRef, m: Mode) -> Option<Seq<char>> {
    match ty {
        TypeRef::Scalar(n) => Some(n@),
        TypeRef::Model(n) => match lookup_in(reg, n@) {
            Some(mm) => if mm.has(m) {
                Some(view_name(n@, m))
            } else {
                None
            },
            None => None,
        },
    }
}

impl View for Registry {
    type V = Seq<(Seq<char>, ModelModes)>;

    closed spec fn view(&self) -> Seq<(Seq<char>, ModelModes)> {
        self.models@.map_values(|e: RegisteredModel| (e.name@, e.modes))
    }
}

impl Registry {
    /// A registry that knows no model.
    pub fn new() -> (r: Registry)
        ensures
            r@ == Seq::<(Seq<char>, ModelModes)>::empty(),
    {
        Registry { models: Vec::new() }
    }

    /// Records that the model `name` has the views `modes`.
    pub fn insert(&mut self, name: String, modes: ModelModes)
        ensures
            final(self)@ == old(self)@.push((name@, modes)),
    {
        self.models.push(RegisteredModel { name, modes });
        assert(self@ =~= old(self)@.push((name@, modes)));
    }

    /// The views of the model `name`, if it is registered.
    pub fn lookup(&self, name: &String) -> (r: Option<ModelModes>)
        ensures
            r == lookup_in(self@, name@),
    {
        let mut i: usize = self.models.len();
        assert(self@.take(i as int) =~= self@);
        while i > 0
            invariant
                i <= self.models.len(),
                lookup_in(self@, name@) == lookup_in(self@.take(i as int), name@),
            decreases i,
        {
            let ghost s = self@.take(i as int);
            assert(s.drop_last() =~= self@.take(i - 1));
            if self.models[i - 1].name == *name {
                return Some(self.models[i - 1].modes);
            }
            i = i - 1;
        }
        None
    }

    /// The base type that a value of type `ty` presents in mode `m`, or
    /// `None` where `ty` is a model without a view for `m`.
    pub fn resolve(&self, ty: &TypeRef, m: Mode) -> (r: Option<String>)
        ensures
            match r {
                Some(s) => presented(self@, *ty, m) == Some(s@),
                None => presented(self@, *ty, m) is None,
            },
    {
        match ty {
            TypeRef::Scalar(n) => Some(n.clone()),
            TypeRef::Model(n) => match self.lookup(n) {
                Some(mm) => if mm.has_mode(m) {
                    Some(make_view_name(n, m))
                } else {
                    None
                },
                None => None,
            },
        }
    }
}

} // verus!
