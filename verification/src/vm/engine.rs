//! The engine that ties a compiler, an instruction parser, an interrupt model
//! and a code generator together.
use vstd::prelude::*;

verus! {

/// The parts a VM engine runs guest code with.
pub struct Engine<C, R, M, G> {
    compiler: C,
    parse_rule: R,
    interrupt_model: M,
    codegen: G,
}

impl<C, R, M, G> Engine<C, R, M, G> {
    /// The compiler.
    pub closed spec fn compiler(&self) -> C {
        self.compiler
    }

    /// The instruction parser.
    pub closed spec fn parse_rule(&self) -> R {
        self.parse_rule
    }

    /// The interrupt model.
    pub closed spec fn interrupt_model(&self) -> M {
        self.interrupt_model
    }

    /// The code generator.
    pub closed spec fn codegen(&self) -> G {
        self.codegen
    }

    /// An engine made of these parts.
    pub fn new(compiler: C, parse_rule: R, interrupt_model: M, codegen: G) -> (r: Self)
        ensures
            r.compiler() == compiler,
            r.parse_rule() == parse_rule,
            r.interrupt_model() == interrupt_model,
            r.codegen() == codegen,
    {
        Self { compiler, parse_rule, interrupt_model, codegen }
    }
}

} // verus!
