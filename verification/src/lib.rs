//! Display and cause behaviours for error types, generated from the
//! annotations on a type definition.
//!
//! A [`schema::TypeDefinition`] describes a struct or an enum: its variants,
//! their fields and the annotations attached to them. [`derive::error_derive`]
//! turns it into a [`derive::Behaviour`], or into the [`error::GenerationError`]
//! that says what is wrong with the annotations. An [`object::Object`] carries a
//! behaviour next to its field values, and renders itself and hands out its
//! cause through it.

pub mod annotation;
pub mod cause;
pub mod derive;
pub mod error;
pub mod laws;

pub mod message;
pub mod object;
pub mod schema;

pub mod sequence;
pub mod template;
pub mod text;
