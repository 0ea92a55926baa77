//! Parsing a stream of bytes into machine instructions.
use vstd::prelude::*;

use super::instr::NativeInstr;
use crate::utility::BitReader;

verus! {

/// How one architecture's instructions are read from a stream of bytes.
pub trait MachineInstrParserRule {
    type MachineInstr;

    /// Whether `parse` handles the front of `bytes`.
    spec fn parsable(bytes: Seq<u8>) -> bool;

    /// The instruction `parse` reads from the front of `bytes`, and the
    /// bytes it leaves.
    spec fn parsed(bytes: Seq<u8>) -> (Option<NativeInstr<Self::MachineInstr>>, Seq<u8>);

    /// Reads the next instruction of `buf`; `None` at the end of the stream.
    fn parse(&mut self, buf: &mut BitReader) -> (r: Option<NativeInstr<Self::MachineInstr>>)
        requires
            Self::parsable(old(buf)@),
        ensures
            (r, final(buf)@) == Self::parsed(old(buf)@),
    ;
}

/// Reads the instructions of a stream of bytes, one at a time.
pub struct MachineInstParser<R> {
    buf: BitReader,
    rule: R,
}

impl<R: MachineInstrParserRule> MachineInstParser<R> {
    /// The bytes not read yet.
    pub closed spec fn remaining(&self) -> Seq<u8> {
        self.buf@
    }

    /// A parser of the bytes of `buf` under `rule`.
    pub fn new(buf: BitReader, rule: R) -> (r: Self)
        ensures
            r.remaining() == buf@,
    {
        Self { buf, rule }
    }

    /// The next instruction; `None` at the end of the stream.
    pub fn next(&mut self) -> (r: Option<NativeInstr<R::MachineInstr>>)
        requires
            R::parsable(old(self).remaining()),
        ensures
            (r, final(self).remaining()) == R::parsed(old(self).remaining()),
    {
        self.rule.parse(&mut self.buf)
    }
}

} // verus!
