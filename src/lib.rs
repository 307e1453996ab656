//! Derived per-mode views of data models (read, create, partial update) and
//! the two-state `Patch` value used by partial updates.

pub mod decode;
pub mod derive;
pub mod laws;
pub mod patch;
pub mod registry;
pub mod schema;
pub mod view;

pub use decode::{decode_patch, DecodeError};
pub use derive::derive_views;
pub use patch::Patch;
pub use registry::{ModelModes, RegisteredModel, Registry};
pub use schema::{
    DefinitionError, DerivedViews, FieldDecl, FieldPolicies, Mode, ModelDecl, PatchPolicy,
    Presence, Shape, TypeRef, ViewField, ViewSchema,
};
pub use view::{View, ViewMode, ViewModeCreate, ViewModeGet, ViewModePatch};
