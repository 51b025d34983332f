//! Extension modules of the engine.

use vstd::prelude::*;
use vstd::utf8::encode_utf8;

use crate::call::{issued, CallView, RimeCall};
use crate::error::RimeError;
use crate::util::{representable, NativeText};

verus! {

/// An extension module, known to the engine by its name.
#[derive(Debug, PartialEq, Eq)]
pub struct RimeModule {
    module_name: NativeText,
}

impl RimeModule {
    /// The name of the module, as bytes.
    pub closed spec fn name(&self) -> Seq<u8> {
        self.module_name@
    }

    /// The call that looks up the module named `module_name`. Refused
    /// exactly when the name holds a NUL byte.
    pub fn find(module_name: &str) -> (outcome: Result<RimeCall, RimeError>)
        ensures
            issued(outcome) == if representable(module_name@) {
                Ok::<CallView, RimeError>(CallView::FindModule { name: encode_utf8(module_name@) })
            } else {
                Err::<CallView, RimeError>(RimeError::UnrepresentableText)
            },
    {
        match NativeText::new(module_name) {
            Some(name) => Ok(RimeCall::FindModule { name }),
            None => Err(RimeError::UnrepresentableText),
        }
    }

    /// A module named `module_name`. Refused exactly when the name holds
    /// a NUL byte.
    pub fn new(module_name: &str) -> (outcome: Result<Self, RimeError>)
        ensures
            outcome is Ok <==> representable(module_name@),
            outcome is Ok ==> outcome->Ok_0.name() == encode_utf8(module_name@),
            outcome is Err ==> outcome->Err_0 == RimeError::UnrepresentableText,
    {
        match NativeText::new(module_name) {
            Some(module_name) => Ok(RimeModule { module_name }),
            None => Err(RimeError::UnrepresentableText),
        }
    }

    /// The name of the module in the form the engine takes it.
    pub fn module_name(&self) -> (name: &NativeText)
        ensures
            name@ == self.name(),
    {
        &self.module_name
    }

    /// The call that registers the module with the engine.
    pub fn register(&mut self) -> (call: RimeCall)
        ensures
            call@ == (CallView::RegisterModule { name: old(self).name() }),
            final(self).name() == old(self).name(),
    {
        RimeCall::RegisterModule { name: self.module_name.clone() }
    }
}

} // verus!
