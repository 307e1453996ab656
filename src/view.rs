//! Access modes and the per-mode shape of a type.

use vstd::prelude::*;

verus! {

/// Access mode for a model.
pub trait ViewMode {}

/// Read access for a model.
pub struct ViewModeGet;

impl ViewMode for ViewModeGet {}

/// Create access for a model.
pub struct ViewModeCreate;

impl ViewMode for ViewModeCreate {}

/// Update access for a model.
pub struct ViewModePatch;

impl ViewMode for ViewModePatch {}

/// The type that `Self` presents in mode `M`.
pub trait View<M: ViewMode> {
    type Type;
}

impl<M: ViewMode> View<M> for bool {
    type Type = bool;
}

impl<M: ViewMode> View<M> for i8 {
    type Type = i8;
}

impl<M: ViewMode> View<M> for u8 {
    type Type = u8;
}

impl<M: ViewMode> View<M> for i16 {
    type Type = i16;
}

impl<M: ViewMode> View<M> for u16 {
    type Type = u16;
}

impl<M: ViewMode> View<M> for i32 {
    type Type = i32;
}

impl<M: ViewMode> View<M> for u32 {
    type Type = u32;
}

impl<M: ViewMode> View<M> for i64 {
    type Type = i64;
}

impl<M: ViewMode> View<M> for u64 {
    type Type = u64;
}

impl<M: ViewMode> View<M> for i128 {
    type Type = i128;
}

impl<M: ViewMode> View<M> for u128 {
    type Type = u128;
}

impl<M: ViewMode> View<M> for String {
    type Type = String;
}

impl<M: ViewMode> View<M> for &'static str {
    type Type = &'static str;
}

/// Declares `uuid::Uuid` so that it can present itself unchanged in every
/// mode; the library reads nothing inside a value of it.
#[verifier::external_type_specification]
#[verifier::external_body]
pub struct ExUuid(uuid::Uuid);

impl<M: ViewMode> View<M> for uuid::Uuid {
    type Type = uuid::Uuid;
}

} // verus!
