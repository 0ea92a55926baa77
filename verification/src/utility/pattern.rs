//! Bit patterns written as strings of `0`, `1` and `x`.
use vstd::prelude::*;

verus! {

/// The pattern and mask bits that `c` stands for: `1` and `0` must match,
/// `x` matches anything.
pub open spec fn char_bits(c: char) -> (u32, u32) {
    if c == '1' {
        (1, 1)
    } else if c == '0' {
        (0, 1)
    } else {
        (0, 0)
    }
}

/// Whether `c` may stand in a pattern string: a bit, or a separator.
pub open spec fn is_pattern_string_char(c: char) -> bool {
    c == 'x' || c == '0' || c == '1' || c == '_' || c == ' '
}

/// The pattern and mask written by `s`, last character in bit 0; bits beyond
/// the 32nd from the end are shifted out.
pub open spec fn pattern_of(s: Seq<char>) -> (u32, u32)
    decreases s.len(),
{
    if s.len() == 0 {
        (0, 0)
    } else {
        let (p, m) = pattern_of(s.drop_last());
        let c = s.last();
        if c == '_' || c == ' ' {
            (p, m)
        } else {
            (((p << 1u32) | char_bits(c).0) as u32, ((m << 1u32) | char_bits(c).1) as u32)
        }
    }
}

/// Whether `c` stands for a bit of a pattern, not a separator.
pub open spec fn is_bit_char(c: char) -> bool {
    c != '_' && c != ' '
}

/// Separators do not change what a pattern string writes.
pub proof fn lemma_pattern_of_ignores_separators(s: Seq<char>)
    ensures
        pattern_of(s) == pattern_of(s.filter(|c: char| is_bit_char(c))),
    decreases s.len(),
{
    reveal(Seq::filter);
    if s.len() > 0 {
        lemma_pattern_of_ignores_separators(s.drop_last());
        let f = s.drop_last().filter(|c: char| is_bit_char(c));
        if is_bit_char(s.last()) {
            let g = f.push(s.last());
            assert(g.drop_last() =~= f);
        }
    }
}

/// A 32-bit pattern: the bits of `mask` must be equal in a target and in
/// `pattern`.
pub struct Pattern {
    pattern: u32,
    mask: u32,
}

impl View for Pattern {
    /// The pattern bits and the mask.
    type V = (u32, u32);

    closed spec fn view(&self) -> (u32, u32) {
        (self.pattern, self.mask)
    }
}

/// Parses a pattern string; `_` and spaces separate groups and are skipped.
pub fn parse_pattern(pattern: &str) -> (r: Pattern)
    requires
        forall|i: int| 0 <= i < pattern@.len() ==> is_pattern_string_char(#[trigger] pattern@[i]),
    ensures
        r@ == pattern_of(pattern@),
{
    let mut pattern_result: u32 = 0;
    let mut mask_result: u32 = 0;
    for c in it: pattern.chars()
        invariant
            it.seq() == pattern@,
            forall|i: int| 0 <= i < pattern@.len() ==> is_pattern_string_char(#[trigger] pattern@[i]),
            (pattern_result, mask_result) == pattern_of(pattern@.take(it.index() as int)),
    {
        proof {
            assert(pattern@.take(it.index() + 1).drop_last() =~= pattern@.take(it.index() as int));
        }
        if c != '_' && c != ' ' {
            let (pat, mask): (u32, u32) = if c == 'x' {
                (0, 0)
            } else if c == '0' {
                (0, 1)
            } else {
                (1, 1)
            };
            pattern_result = pattern_result << 1u32;
            pattern_result = pattern_result | pat;
            mask_result = mask_result << 1u32;
            mask_result = mask_result | mask;
        }
    }
    proof {
        assert(pattern@.take(pattern@.len() as int) =~= pattern@);
    }
    Pattern { pattern: pattern_result, mask: mask_result }
}

/// Whether `target` agrees with the pattern bits `p` under the mask `m`.
pub open spec fn pattern_test(p: u32, m: u32, target: u32) -> bool {
    (!(target ^ p) & m) == m
}

impl Pattern {
    /// Whether `target` agrees with the pattern on every bit of the mask.
    pub fn test_u32(&self, target: u32) -> (r: bool)
        ensures
            r == pattern_test(self@.0, self@.1, target),
    {
        (!(target ^ self.pattern) & self.mask) == self.mask
    }

    /// Whether the byte `target` agrees with the pattern on every bit of
    /// the mask; mask bits above the byte must then be clear in the pattern.
    pub fn test_u8(&self, target: u8) -> (r: bool)
        ensures
            r == pattern_test(self@.0, self@.1, target as u32),
    {
        let target = target as u32;
        (!(target ^ self.pattern) & self.mask) == self.mask
    }
}

/// A target passes a pattern test exactly when it equals the pattern on the
/// bits of the mask.
pub proof fn lemma_pattern_test_masked_bits(p: u32, m: u32, target: u32)
    ensures
        pattern_test(p, m, target) <==> (target & m) == (p & m),
{
    assert(((!(target ^ p) & m) == m) <==> ((target & m) == (p & m))) by (bit_vector);
}

} // verus!
