//! Generation of `Debug`, `Display`, `Error` and `From` impls for an enum whose
//! variants each wrap one error value.
//!
//! The host parses the enum into a [`Declaration`]; [`derive_sum_error`] checks its
//! shape and returns the generated items as text pieces, each tied to the source
//! location that its diagnostics should point at.

mod model;
mod template;
mod derive;
mod laws;

pub use model::{Body, Case, Declaration, DeriveError, DeriveErrorKind, Payload, TypeRef};
pub use template::{render_arms, ArmTemplate, Piece};
pub use derive::{build_shape, derive_sum_error, AssertionBlock, Generated, ShapeModel};
pub use laws::{
    lemma_bad_arity_fails, lemma_conversion_round_trip, lemma_derive_deterministic,
    lemma_named_payload_fails, lemma_not_enum_fails, lemma_valid_enum_derives,
};
