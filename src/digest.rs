use vstd::prelude::*;

verus! {

/// A 256-bit digest: message ids, tree roots, domain hashes, transaction ids.
#[derive(Clone, Copy, Debug)]
pub struct H256(pub [u8; 32]);

impl View for H256 {
    type V = Seq<u8>;

    open spec fn view(&self) -> Seq<u8> {
        self.0@
    }
}

impl H256 {
    /// The all-zero digest.
    pub fn zero() -> (r: H256)
        ensures
            r@ == Seq::new(32, |i: int| 0u8),
    {
        let r = H256([0u8; 32]);
        assert(r@ =~= Seq::new(32, |i: int| 0u8));
        r
    }

    /// Byte-wise equality of two digests.
    pub fn same(&self, other: &H256) -> (r: bool)
        ensures
            r == (self@ == other@),
    {
        let mut i: usize = 0;
        while i < 32
            invariant
                i <= 32,
                self@.len() == 32,
                other@.len() == 32,
                forall|j: int| 0 <= j < i ==> self@[j] == other@[j],
            decreases 32 - i,
        {
            if self.0[i] != other.0[i] {
                return false;
            }
            i = i + 1;
        }
        assert(self@ =~= other@);
        true
    }
}

impl PartialEq for H256 {
    fn eq(&self, other: &H256) -> (r: bool) {
        self.same(other)
    }
}

impl vstd::std_specs::cmp::PartialEqSpecImpl for H256 {
    open spec fn obeys_eq_spec() -> bool {
        true
    }

    open spec fn eq_spec(&self, other: &H256) -> bool {
        self@ == other@
    }
}

impl Eq for H256 {}

/// Whether `x` occurs in `s`.
pub open spec fn holds_digest(s: Seq<H256>, x: Seq<u8>) -> bool {
    exists|i: int| 0 <= i < s.len() && s[i]@ == x
}

/// Searches `s` for a digest equal to `x`.
pub fn contains_digest(s: &Vec<H256>, x: &H256) -> (r: bool)
    ensures
        r == holds_digest(s@, x@),
{
    let r = contains_digest_before(s, s.len(), x);
    assert(s@.subrange(0, s@.len() as int) =~= s@);
    r
}

/// Searches the first `n` entries of `s` for a digest equal to `x`.
pub fn contains_digest_before(s: &Vec<H256>, n: usize, x: &H256) -> (r: bool)
    requires
        n <= s@.len(),
    ensures
        r == holds_digest(s@.subrange(0, n as int), x@),
{
    let mut i: usize = 0;
    while i < n
        invariant
            i <= n <= s@.len(),
            forall|j: int| 0 <= j < i ==> s@[j]@ != x@,
        decreases n - i,
    {
        if s[i].same(x) {
            assert(s@.subrange(0, n as int)[i as int] == s@[i as int]);
            return true;
        }
        i = i + 1;
    }
    assert forall|j: int| 0 <= j < n implies #[trigger] s@.subrange(0, n as int)[j]@ != x@ by {
        assert(s@.subrange(0, n as int)[j] == s@[j]);
    }
    false
}

} // verus!
