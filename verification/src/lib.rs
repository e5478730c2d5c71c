//! Turns sample JSON documents into Dart model source.
//!
//! A document is one JSON object. Each of its members becomes a field of the
//! generated class: the member's value decides the field's type, and a short
//! prefix on the member's key marks the field as required or as having a
//! default. The fields are rendered into five text fragments, which a fixed
//! class skeleton holds together.

pub mod builder;
pub mod generate;
pub mod infer;
pub mod json;
pub mod laws;
pub mod model;
pub mod naming;
pub mod sample;
pub mod sync;
pub mod text;
pub mod tmpl;
pub mod translation;
