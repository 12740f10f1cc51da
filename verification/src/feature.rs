//! Service descriptors of the intermediate model: HTTP-based,
//! REST-like functions. Resolution of the schema document's type
//! section leaves these empty; they are carried for the emitter's
//! callers.

use vstd::prelude::*;
use crate::message::KPrimType;
use crate::message::KTypeRef;

verus! {

/// HTTP-based REST-like service.
#[derive(PartialEq, Eq, Debug)]
pub struct HService {
    pub funcs: Vec<HFunc>,
    pub comment: String,
}

#[derive(PartialEq, Eq, Debug)]
pub struct HFunc {
    pub input: HFuncInput,
    pub output: HFuncOutput,
    pub comment: String,
}

/// An HTTP REST-like input. `body` must be the unit reference when the
/// method carries no body.
#[derive(PartialEq, Eq, Debug)]
pub struct HFuncInput {
    pub method: String,
    pub path: String,
    pub query: Vec<HFuncInputQuery>,
    pub body: KTypeRef,
    pub comment: String,
}

#[derive(PartialEq, Eq, Debug)]
pub struct HFuncInputQuery {
    pub name: String,
    pub storage: KPrimType,
    pub comment: String,
}

#[derive(PartialEq, Eq, Debug)]
pub struct HFuncOutput {
    pub cases: Vec<HFuncCase>,
    pub comment: String,
}

#[derive(PartialEq, Eq, Debug)]
pub struct HFuncCase {
    pub status: i32,
    pub body: KTypeRef,
    pub comment: String,
}

} // verus!
