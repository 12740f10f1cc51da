//! A schema code generator core: classifies schema nodes of an API
//! description document into four canonical shapes, validates them,
//! resolves them into an intermediate type model, and emits Rust type
//! declarations from that model.

pub mod codegen;
pub mod feature;
pub mod lint;
pub mod message;
pub mod model;
pub mod openapi3;
pub mod openapi3_lint;
pub mod openapi3_scan;
pub mod strutil;
