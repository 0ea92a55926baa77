//! Byte-wise bit patterns and their matching.
use vstd::prelude::*;
use vstd::arithmetic::power2::{lemma2_to64, lemma_pow2_strictly_increases, lemma_pow2_unfold, pow2};

verus! {

/// `ones_u8(len)`: the byte whose `len` lowest bits are set.
pub fn ones_u8(len: usize) -> (r: u8)
    requires
        len <= 8,
    ensures
        r as nat == pow2(len as nat) - 1,
{
    let mut state: u8 = 0;
    let mut i: usize = 0;
    proof {
        lemma2_to64();
    }
    while i < len
        invariant
            i <= len <= 8,
            state as nat == pow2(i as nat) - 1,
        decreases len - i,
    {
        proof {
            lemma_pow2_unfold((i + 1) as nat);
            lemma2_to64();
            if i < 7 {
                lemma_pow2_strictly_increases(i as nat, 7);
            }
        }
        let s = state;
        assert((s << 1u8) | 1u8 == 2 * s + 1) by (bit_vector)
            requires
                s < 128,
        ;
        state = (s << 1u8) | 1u8;
        i = i + 1;
    }
    state
}

/// Whether `c` is one of the characters that stand for a bit of a pattern.
pub open spec fn is_pattern_char(c: char) -> bool {
    c == 'x' || c == '0' || c == '1'
}

/// The characters of `s` that stand for bits, in order.
pub open spec fn pattern_bits(s: Seq<char>) -> Seq<char> {
    s.filter(|c: char| is_pattern_char(c))
}

/// The value bit that `c` stands for.
pub open spec fn value_bit(c: char) -> u8 {
    if c == '1' {
        1
    } else {
        0
    }
}

/// The mask bit that `c` stands for: `x` matches anything.
pub open spec fn mask_bit(c: char) -> u8 {
    if c == 'x' {
        0
    } else {
        1
    }
}

/// The (value, mask) byte written by the bit characters `s`, first character
/// in the highest bit.
pub open spec fn byte_of(s: Seq<char>) -> (u8, u8)
    decreases s.len(),
{
    if s.len() == 0 {
        (0, 0)
    } else {
        let (p, m) = byte_of(s.drop_last());
        (((p << 1u8) | value_bit(s.last())) as u8, ((m << 1u8) | mask_bit(s.last())) as u8)
    }
}

/// The (value, mask) bytes written by the bit characters `bits`, eight to a
/// byte.
pub open spec fn bytes_of(bits: Seq<char>) -> Seq<(u8, u8)> {
    Seq::new(bits.len() / 8, |k: int| byte_of(bits.subrange(8 * k, 8 * k + 8)))
}

/// Whether `target` matches the (value, mask) bytes `pm`, byte for byte, as
/// far as both go.
pub open spec fn matches_bytes(pm: Seq<(u8, u8)>, target: Seq<u8>) -> bool {
    forall|i: int|
        0 <= i < pm.len() && i < target.len() ==> #[trigger] target[i] & pm[i].1 == pm[i].0
}

/// In every byte a pattern writes, the value bits lie within the mask.
pub proof fn lemma_byte_of_within_mask(s: Seq<char>)
    ensures
        byte_of(s).0 & byte_of(s).1 == byte_of(s).0,
    decreases s.len(),
{
    if s.len() > 0 {
        lemma_byte_of_within_mask(s.drop_last());
        let (p, m) = byte_of(s.drop_last());
        let v = value_bit(s.last());
        let mb = mask_bit(s.last());
        assert(v <= mb <= 1);
        let p2 = ((p << 1u8) | v) as u8;
        let m2 = ((m << 1u8) | mb) as u8;
        assert(byte_of(s) == (p2, m2));
        assert(p2 & m2 == p2) by (bit_vector)
            requires
                p & m == p,
                v <= mb <= 1,
                p2 == ((p << 1u8) | v) as u8,
                m2 == ((m << 1u8) | mb) as u8,
        ;
    } else {
        assert(0u8 & 0u8 == 0u8) by (bit_vector);
    }
}

/// The value bytes of (value, mask) pairs.
pub open spec fn values_of(pm: Seq<(u8, u8)>) -> Seq<u8> {
    Seq::new(pm.len(), |i: int| pm[i].0)
}

/// A pattern accepts the bytes of its own value bits.
pub proof fn lemma_pattern_matches_own_values(pattern: Seq<char>)
    ensures
        matches_bytes(bytes_of(pattern_bits(pattern)), values_of(bytes_of(pattern_bits(pattern)))),
{
    let bits = pattern_bits(pattern);
    let pm = bytes_of(bits);
    assert forall|i: int| 0 <= i < pm.len() implies #[trigger] values_of(pm)[i] & pm[i].1
        == pm[i].0 by {
        lemma_byte_of_within_mask(bits.subrange(8 * i, 8 * i + 8));
    }
}

/// A byte-wise bit pattern.
#[derive(Debug)]
pub struct MatchTester {
    pattern_and_mask: Vec<(u8, u8)>,
}

impl View for MatchTester {
    /// The (value, mask) pair of each byte.
    type V = Seq<(u8, u8)>;

    closed spec fn view(&self) -> Seq<(u8, u8)> {
        self.pattern_and_mask@
    }
}

impl MatchTester {
    /// Create a new `MatchTester` from a pattern string: `1` and `0` must
    /// match, `x` matches anything, other characters are skipped. The bit
    /// characters must fill whole bytes.
    pub fn new(pattern: &str) -> (r: Self)
        requires
            pattern_bits(pattern@).len() % 8 == 0,
        ensures
            r@ == bytes_of(pattern_bits(pattern@)),
    {
        let ghost f = pattern_bits(pattern@);
        let mut bits: Vec<char> = Vec::new();
        for c in it: pattern.chars()
            invariant
                it.seq() == pattern@,
                bits@ == pattern_bits(pattern@.take(it.index() as int)),
        {
            proof {
                reveal(Seq::filter);
                assert(pattern@.take(it.index() + 1).drop_last() =~= pattern@.take(it.index() as int));
            }
            if c == 'x' || c == '0' || c == '1' {
                bits.push(c);
            }
        }
        proof {
            assert(pattern@.take(pattern@.len() as int) =~= pattern@);
        }
        let mut pattern_and_mask: Vec<(u8, u8)> = Vec::new();
        let mut pat: u8 = 0;
        let mut mas: u8 = 0;
        let mut i: usize = 0;
        let mut k: usize = 0;
        while i < bits.len()
            invariant
                bits@ == f,
                f.len() % 8 == 0,
                i <= f.len(),
                i == 8 * pattern_and_mask@.len() + k,
                k < 8,
                (pat, mas) == byte_of(f.subrange(i - k, i as int)),
                pattern_and_mask@ =~= bytes_of(f).take(pattern_and_mask@.len() as int),
            decreases f.len() - i,
        {
            let c = bits[i];
            proof {
                assert(f.subrange(i - k, i + 1).drop_last() =~= f.subrange(i - k, i as int));
            }
            let (p, m): (u8, u8) = if c == 'x' {
                (0, 0)
            } else if c == '1' {
                (1, 1)
            } else {
                (0, 1)
            };
            pat = pat << 1u8;
            pat = pat | p;
            mas = mas << 1u8;
            mas = mas | m;
            if k == 7 {
                proof {
                    let n = pattern_and_mask@.len() as int;
                    assert(i + 1 == 8 * n + 8);
                    assert(n < f.len() / 8);
                    assert(bytes_of(f)[n] == (pat, mas));
                    assert(bytes_of(f).take(n + 1) =~= bytes_of(f).take(n).push((pat, mas)));
                }
                pattern_and_mask.push((pat, mas));
                pat = 0;
                mas = 0;
                k = 0;
                proof {
                    assert(f.subrange(i + 1, i + 1) =~= Seq::<char>::empty());
                }
            } else {
                k = k + 1;
            }
            i = i + 1;
        }
        proof {
            assert(k == 0);
            assert(pattern_and_mask@.len() == f.len() / 8);
            assert(bytes_of(f).take(pattern_and_mask@.len() as int) =~= bytes_of(f));
        }
        Self { pattern_and_mask }
    }

    /// Whether `target` matches the pattern, byte for byte, as far as both
    /// go.
    pub fn test(&self, target: &[u8]) -> (r: bool)
        ensures
            r == matches_bytes(self@, target@),
    {
        let n = if self.pattern_and_mask.len() < target.len() {
            self.pattern_and_mask.len()
        } else {
            target.len()
        };
        let mut i: usize = 0;
        while i < n
            invariant
                n <= self@.len(),
                n <= target@.len(),
                n == self@.len() || n == target@.len(),
                i <= n,
                forall|j: int| 0 <= j < i ==> #[trigger] target@[j] & self@[j].1 == self@[j].0,
            decreases n - i,
        {
            let (p, m) = self.pattern_and_mask[i];
            if target[i] & m != p {
                return false;
            }
            i = i + 1;
        }
        true
    }
}

/// The index of the first of `testers` that accepts `raw`, if any: which
/// pattern a dispatcher that tries its patterns in order picks for `raw`.
pub fn first_match(testers: &Vec<MatchTester>, raw: &[u8]) -> (r: Option<usize>)
    ensures
        r matches Some(i) ==> i < testers@.len() && matches_bytes(testers@[i as int]@, raw@)
            && forall|j: int| 0 <= j < i ==> !matches_bytes(#[trigger] testers@[j]@, raw@),
        r is None ==> forall|j: int|
            0 <= j < testers@.len() ==> !matches_bytes(#[trigger] testers@[j]@, raw@),
{
    let mut i: usize = 0;
    while i < testers.len()
        invariant
            i <= testers@.len(),
            forall|j: int| 0 <= j < i ==> !matches_bytes(#[trigger] testers@[j]@, raw@),
        decreases testers@.len() - i,
    {
        if testers[i].test(raw) {
            return Some(i);
        }
        i = i + 1;
    }
    None
}

} // verus!
