//! Account addresses as the program compares them: 32 raw bytes, ordered
//! lexicographically (the first differing byte decides).

use vstd::prelude::*;

verus! {

/// A 32-byte account address.
#[derive(Clone, Copy, Debug)]
pub struct Pubkey {
    pub bytes: [u8; 32],
}

impl View for Pubkey {
    type V = Seq<u8>;

    open spec fn view(&self) -> Seq<u8> {
        self.bytes@
    }
}

/// `a` sorts strictly before `b`: at the first index where they differ,
/// the byte of `a` is the smaller one.
pub open spec fn key_lt(a: Seq<u8>, b: Seq<u8>) -> bool {
    exists|i: int| #![trigger a[i], b[i]] key_lt_at(a, b, i)
}

/// `i` is an index of `a` and `b` below which they agree and at which `a`
/// holds the smaller byte.
pub open spec fn key_lt_at(a: Seq<u8>, b: Seq<u8>, i: int) -> bool {
    &&& 0 <= i < a.len()
    &&& i < b.len()
    &&& a[i] < b[i]
    &&& forall|j: int| 0 <= j < i ==> a[j] == b[j]
}

impl Pubkey {
    /// Builds an address from its bytes.
    pub fn new_from_array(bytes: [u8; 32]) -> (k: Pubkey)
        ensures
            k@ == bytes@,
    {
        Pubkey { bytes }
    }

    /// The address's bytes.
    pub fn to_bytes(&self) -> (b: [u8; 32])
        ensures
            b@ == self@,
    {
        self.bytes
    }

    /// Whether the two addresses are the same.
    pub fn equals(&self, other: &Pubkey) -> (r: bool)
        ensures
            r == (self@ == other@),
    {
        let mut i: usize = 0;
        while i < 32
            invariant
                0 <= i <= 32,
                self@.len() == 32,
                other@.len() == 32,
                forall|j: int| 0 <= j < i ==> self@[j] == other@[j],
            decreases 32 - i,
        {
            if self.bytes[i] != other.bytes[i] {
                return false;
            }
            i = i + 1;
        }
        assert(self@ =~= other@);
        true
    }

    /// Whether `self` sorts strictly before `other`.
    pub fn less_than(&self, other: &Pubkey) -> (r: bool)
        ensures
            r == key_lt(self@, other@),
    {
        let ghost a = self@;
        let ghost b = other@;
        let mut i: usize = 0;
        while i < 32
            invariant
                0 <= i <= 32,
                a == self@,
                b == other@,
                a.len() == 32,
                b.len() == 32,
                forall|j: int| 0 <= j < i ==> a[j] == b[j],
            decreases 32 - i,
        {
            let x = self.bytes[i];
            let y = other.bytes[i];
            if x < y {
                assert(key_lt_at(a, b, i as int));
                return true;
            }
            if x > y {
                assert forall|k: int| !key_lt_at(a, b, k) by {
                    if key_lt_at(a, b, k) {
                        if k < i {
                        } else if k == i {
                        } else {
                            assert(a[i as int] == b[i as int]);
                        }
                    }
                }
                return false;
            }
            i = i + 1;
        }
        assert forall|k: int| !key_lt_at(a, b, k) by {
            if key_lt_at(a, b, k) {
                assert(a[k] == b[k]);
            }
        }
        false
    }
}

/// No address sorts before itself.
pub proof fn lemma_key_lt_irreflexive(a: Seq<u8>)
    ensures
        !key_lt(a, a),
{
}

/// Two addresses never sort before each other both ways.
pub proof fn lemma_key_lt_asymmetric(a: Seq<u8>, b: Seq<u8>)
    ensures
        !(key_lt(a, b) && key_lt(b, a)),
{
    if key_lt(a, b) && key_lt(b, a) {
        let i = choose|i: int| key_lt_at(a, b, i);
        let k = choose|k: int| key_lt_at(b, a, k);
        if i < k {
            assert(b[i] == a[i]);
        } else if k < i {
            assert(a[k] == b[k]);
        }
    }
}

/// The order is transitive.
pub proof fn lemma_key_lt_transitive(a: Seq<u8>, b: Seq<u8>, c: Seq<u8>)
    requires
        key_lt(a, b),
        key_lt(b, c),
    ensures
        key_lt(a, c),
{
    let i = choose|i: int| key_lt_at(a, b, i);
    let k = choose|k: int| key_lt_at(b, c, k);
    let m = if i < k { i } else { k };
    assert forall|j: int| 0 <= j < m implies a[j] == c[j] by {
        assert(a[j] == b[j]);
        assert(b[j] == c[j]);
    }
    if i < k {
        assert(b[i] == c[i]);
    } else if k < i {
        assert(a[k] == b[k]);
    }
    assert(key_lt_at(a, c, m));
}

/// The order is decided at the first byte where the two addresses differ:
/// the one with the smaller byte there sorts first.
pub proof fn lemma_key_lt_first_difference(a: Seq<u8>, b: Seq<u8>, i: int)
    requires
        a.len() == b.len(),
        0 <= i < a.len(),
        forall|j: int| 0 <= j < i ==> a[j] == b[j],
        a[i] != b[i],
    ensures
        key_lt(a, b) <==> a[i] < b[i],
{
    if a[i] < b[i] {
        assert(key_lt_at(a, b, i));
    } else if key_lt(a, b) {
        let k = choose|k: int| key_lt_at(a, b, k);
        if k < i {
            assert(a[k] == b[k]);
        } else if k > i {
            assert(a[i] == b[i]);
        }
    }
}

/// Two different addresses of the same length are ordered one way or the
/// other.
pub proof fn lemma_key_lt_total(a: Seq<u8>, b: Seq<u8>)
    requires
        a.len() == b.len(),
        a != b,
    ensures
        key_lt(a, b) || key_lt(b, a),
{
    lemma_key_lt_total_from(a, b, 0);
}

proof fn lemma_key_lt_total_from(a: Seq<u8>, b: Seq<u8>, n: int)
    requires
        a.len() == b.len(),
        a != b,
        0 <= n <= a.len(),
        forall|j: int| 0 <= j < n ==> a[j] == b[j],
    ensures
        key_lt(a, b) || key_lt(b, a),
    decreases a.len() - n,
{
    if n == a.len() {
        assert(a =~= b);
    } else if a[n] == b[n] {
        lemma_key_lt_total_from(a, b, n + 1);
    } else if a[n] < b[n] {
        assert(key_lt_at(a, b, n));
    } else {
        assert(key_lt_at(b, a, n));
    }
}

} // verus!
