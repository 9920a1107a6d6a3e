//! The signature of an extracted C function.

use vstd::prelude::*;
use crate::cparam::{CParameter, ParameterView};

verus! {

/// A C function signature: return type, name and parameters in declaration
/// order.
#[derive(Clone, Debug)]
pub struct CFunction {
    pub return_type: String,
    pub name: String,
    pub parameters: Vec<CParameter>,
}

/// The mathematical value of a [`CFunction`].
pub struct FunctionView {
    pub return_type: Seq<char>,
    pub name: Seq<char>,
    pub parameters: Seq<ParameterView>,
}

impl FunctionView {
    /// The signature with nothing filled in.
    pub open spec fn empty() -> FunctionView {
        FunctionView { return_type: Seq::empty(), name: Seq::empty(), parameters: Seq::empty() }
    }

    /// Every parameter's category is the one that its type maps to.
    pub open spec fn well_formed(self) -> bool {
        forall|i: int|
            0 <= i < self.parameters.len() ==> (#[trigger] self.parameters[i]).well_formed()
    }

    /// Every parameter's counts fit their 32 bits.
    pub open spec fn representable(self) -> bool {
        forall|i: int|
            0 <= i < self.parameters.len() ==> (#[trigger] self.parameters[i]).representable()
    }
}

/// The values of a list of parameters, in order.
pub open spec fn parameter_views(parameters: Seq<CParameter>) -> Seq<ParameterView> {
    Seq::new(parameters.len(), |i: int| parameters[i]@)
}

/// The values of a list of signatures, in order.
pub open spec fn function_views(functions: Seq<CFunction>) -> Seq<FunctionView> {
    Seq::new(functions.len(), |i: int| functions[i]@)
}

impl View for CFunction {
    type V = FunctionView;

    open spec fn view(&self) -> FunctionView {
        FunctionView {
            return_type: self.return_type@,
            name: self.name@,
            parameters: parameter_views(self.parameters@),
        }
    }
}

impl CFunction {
    /// Every parameter's category is the one that its type maps to.
    pub open spec fn well_formed(&self) -> bool {
        self@.well_formed()
    }

    /// A signature with an empty return type, an empty name and no
    /// parameters.
    pub fn new() -> (f: Self)
        ensures
            f@ == FunctionView::empty(),
    {
        let f = Self { return_type: String::new(), name: String::new(), parameters: Vec::new() };
        assert(f@.parameters =~= Seq::empty());
        f
    }
}

} // verus!
