use vstd::prelude::*;

verus! {

/// Length in bytes of an account address on the ledger.
pub const ADDRESS_LEN: usize = 32;

/// A ledger account address: 32 raw bytes.
#[derive(Clone, Copy, Debug)]
pub struct Address {
    pub bytes: [u8; 32],
}

impl View for Address {
    type V = Seq<u8>;

    open spec fn view(&self) -> Seq<u8> {
        self.bytes@
    }
}

/// `a` sorts strictly before `b` in byte-wise lexicographic order.
pub open spec fn addr_lt(a: Seq<u8>, b: Seq<u8>) -> bool {
    exists|i: int|
        0 <= i < a.len() && i < b.len() && a[i] < b[i] && #[trigger] a.subrange(0, i)
            == b.subrange(0, i)
}

/// Lexicographic order on addresses is transitive.
pub proof fn lemma_addr_lt_transitive(a: Seq<u8>, b: Seq<u8>, c: Seq<u8>)
    requires
        addr_lt(a, b),
        addr_lt(b, c),
    ensures
        addr_lt(a, c),
{
    let i = choose|i: int|
        0 <= i < a.len() && i < b.len() && a[i] < b[i] && #[trigger] a.subrange(0, i)
            == b.subrange(0, i);
    let k = choose|k: int|
        0 <= k < b.len() && k < c.len() && b[k] < c[k] && #[trigger] b.subrange(0, k)
            == c.subrange(0, k);
    let m = if i < k { i } else { k };
    assert forall|j: int| 0 <= j < m implies a[j] == c[j] by {
        assert(a.subrange(0, i)[j] == b.subrange(0, i)[j]);
        assert(b.subrange(0, k)[j] == c.subrange(0, k)[j]);
    }
    assert(a.subrange(0, m) =~= c.subrange(0, m));
    if i == k {
        assert(a[m] < c[m]);
    } else if i < k {
        assert(b.subrange(0, k)[i] == c.subrange(0, k)[i]);
    } else {
        assert(a.subrange(0, i)[k] == b.subrange(0, i)[k]);
    }
}

/// No address sorts before itself.
pub proof fn lemma_addr_lt_irreflexive(a: Seq<u8>)
    ensures
        !addr_lt(a, a),
{
}

/// Two distinct addresses of equal length are ordered one way or the other.
pub proof fn lemma_addr_lt_total(a: Seq<u8>, b: Seq<u8>)
    requires
        a.len() == b.len(),
        a != b,
    ensures
        addr_lt(a, b) || addr_lt(b, a),
{
    if forall|j: int| 0 <= j < a.len() ==> a[j] == b[j] {
        assert(a =~= b);
    }
    let d = choose|j: int| 0 <= j < a.len() && a[j] != b[j];
    lemma_first_difference(a, b, d);
}

proof fn lemma_first_difference(a: Seq<u8>, b: Seq<u8>, d: int)
    requires
        a.len() == b.len(),
        0 <= d < a.len(),
        a[d] != b[d],
    ensures
        addr_lt(a, b) || addr_lt(b, a),
    decreases d,
{
    if exists|j: int| 0 <= j < d && a[j] != b[j] {
        let j = choose|j: int| 0 <= j < d && a[j] != b[j];
        lemma_first_difference(a, b, j);
    } else {
        assert(a.subrange(0, d) =~= b.subrange(0, d));
        if a[d] < b[d] {
            assert(addr_lt(a, b));
        } else {
            assert(addr_lt(b, a));
        }
    }
}

impl Address {
    /// Whether two addresses hold the same bytes.
    pub fn same_as(&self, other: &Address) -> (r: bool)
        ensures
            r == (self@ == other@),
    {
        let mut i: usize = 0;
        while i < ADDRESS_LEN
            invariant
                0 <= i <= 32,
                self@.len() == 32,
                other@.len() == 32,
                forall|j: int| 0 <= j < i ==> self@[j] == other@[j],
            decreases 32 - i,
        {
            if self.bytes[i] != other.bytes[i] {
                return false;
            }
            i = i + 1;
        }
        assert(self@ =~= other@);
        true
    }

    /// Whether this address sorts strictly before `other`, byte by byte.
    pub fn precedes(&self, other: &Address) -> (r: bool)
        ensures
            r == addr_lt(self@, other@),
    {
        let mut i: usize = 0;
        while i < ADDRESS_LEN
            invariant
                0 <= i <= 32,
                self@.len() == 32,
                other@.len() == 32,
                self@.subrange(0, i as int) == other@.subrange(0, i as int),
            decreases 32 - i,
        {
            if self.bytes[i] != other.bytes[i] {
                let r = self.bytes[i] < other.bytes[i];
                if !r {
                    proof {
                        lemma_no_earlier_order(self@, other@, i as int);
                    }
                }
                return r;
            }
            assert(self@.subrange(0, i + 1) =~= self@.subrange(0, i as int).push(self@[i as int]));
            assert(other@.subrange(0, i + 1) =~= other@.subrange(0, i as int).push(other@[i as int]));
            i = i + 1;
        }
        assert(self@ =~= self@.subrange(0, 32));
        assert(other@ =~= other@.subrange(0, 32));
        proof {
            lemma_addr_lt_irreflexive(self@);
        }
        false
    }
}

proof fn lemma_no_earlier_order(a: Seq<u8>, b: Seq<u8>, d: int)
    requires
        a.len() == b.len(),
        0 <= d < a.len(),
        a.subrange(0, d) == b.subrange(0, d),
        a[d] > b[d],
    ensures
        !addr_lt(a, b),
{
    if addr_lt(a, b) {
        let i = choose|i: int|
            0 <= i < a.len() && i < b.len() && a[i] < b[i] && #[trigger] a.subrange(0, i)
                == b.subrange(0, i);
        assert(a.subrange(0, i) == b.subrange(0, i));
        if i < d {
            assert(a.subrange(0, d)[i] == a[i]);
            assert(b.subrange(0, d)[i] == b[i]);
        } else if i > d {
            assert(a.subrange(0, i)[d] == a[d]);
            assert(b.subrange(0, i)[d] == b[d]);
        }
    }
}

} // verus!
