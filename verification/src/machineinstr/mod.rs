//! AArch64 machine instructions and their decoder.
pub mod instr;
pub mod instruction;
pub mod operands;
pub mod parse_rules;
pub mod parser;

pub use parser::{MachineInstParser, MachineInstrParserRule};
