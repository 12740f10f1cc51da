//! The central interface of the generator: other schemas are scanned
//! into this model, and target-language code is generated from it.

use vstd::prelude::*;
use crate::feature::HService;
use crate::message::KType;
use crate::message::KTypeV;

verus! {

/// One resolved document: service descriptors plus one entry per named
/// type, in document order.
#[derive(PartialEq, Eq, Debug)]
pub struct Doc1 {
    pub funcs: Vec<HService>,
    pub types: Vec<KType>,
}

/// The spec-level value of a resolved document.
pub ghost struct Doc1V {
    pub funcs: Seq<HService>,
    pub types: Seq<KTypeV>,
}

impl View for Doc1 {
    type V = Doc1V;

    open spec fn view(&self) -> Doc1V {
        Doc1V { funcs: self.funcs@, types: self.types.deep_view() }
    }
}

impl DeepView for Doc1 {
    type V = Doc1V;

    open spec fn deep_view(&self) -> Doc1V {
        self.view()
    }
}

impl Default for Doc1 {
    fn default() -> (r: Doc1)
        ensures
            r@.funcs == Seq::<HService>::empty(),
            r@.types == Seq::<KTypeV>::empty(),
    {
        let r = Doc1 { funcs: Vec::new(), types: Vec::new() };
        proof {
            assert(r@.types =~= Seq::<KTypeV>::empty());
        }
        r
    }
}

} // verus!
