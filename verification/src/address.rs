//! Ledger addresses: twenty-one bytes each.

use vstd::prelude::*;

verus! {

/// Number of bytes in a ledger address.
pub const ADDRESS_LEN: usize = 21;

/// A ledger address: exactly twenty-one bytes.
#[derive(Clone, Copy, Debug, PartialEq, Eq, Hash)]
pub struct Address {
    pub bytes: [u8; 21],
}

/// Whether two byte strings are equal.
pub fn same_bytes(a: &[u8], b: &[u8]) -> (r: bool)
    ensures
        r == (a@ == b@),
{
    if a.len() != b.len() {
        return false;
    }
    let mut i: usize = 0;
    while i < a.len()
        invariant
            i <= a@.len(),
            a@.len() == b@.len(),
            forall|j: int| 0 <= j < i ==> a@[j] == b@[j],
        decreases a@.len() - i,
    {
        if a[i] != b[i] {
            return false;
        }
        i += 1;
    }
    assert(a@ =~= b@);
    true
}

impl View for Address {
    type V = Seq<u8>;

    /// The bytes of the address, in order.
    open spec fn view(&self) -> Seq<u8> {
        self.bytes@
    }
}

spec fn filled(raw: Seq<u8>, n: nat) -> [u8; 21]
    decreases n,
{
    if n == 0 {
        vstd::array::spec_array_fill_for_copy_type::<u8, 21>(0u8)
    } else {
        vstd::array::spec_array_update(filled(raw, (n - 1) as nat), n - 1, raw[n - 1])
    }
}

proof fn lemma_filled(raw: Seq<u8>, n: nat)
    requires
        n <= 21,
        raw.len() == 21,
    ensures
        forall|j: int| 0 <= j < n ==> filled(raw, n)@[j] == raw[j],
    decreases n,
{
    if n > 0 {
        lemma_filled(raw, (n - 1) as nat);
    }
}

impl Address {
    /// The address made of the twenty-one bytes `raw`.
    pub closed spec fn with_bytes(raw: Seq<u8>) -> Address {
        Address { bytes: filled(raw, 21) }
    }

    /// What `from_bytes` makes of raw bytes.
    pub open spec fn parse(raw: Seq<u8>) -> Option<Address> {
        if raw.len() == ADDRESS_LEN {
            Some(Self::with_bytes(raw))
        } else {
            None
        }
    }

    /// `with_bytes` is the inverse of the view.
    pub proof fn lemma_with_bytes(raw: Seq<u8>)
        requires
            raw.len() == ADDRESS_LEN,
        ensures
            Self::with_bytes(raw)@ == raw,
    {
        lemma_filled(raw, 21);
    }

    /// Two addresses with the same bytes are the same address.
    pub proof fn lemma_view_injective(a: Address, b: Address)
        ensures
            a@ == b@ <==> a == b,
    {
        if a@ == b@ {
            assert forall|i: int| 0 <= i < 21 implies a.bytes[i] == b.bytes[i] by {
                assert(a.bytes@[i] == b.bytes@[i]);
            }
            assert(a.bytes =~= b.bytes);
        }
    }

    /// Reads an address from raw bytes; `None` unless there are exactly
    /// twenty-one of them.
    pub fn from_bytes(raw: &[u8]) -> (r: Option<Address>)
        ensures
            r == Self::parse(raw@),
            r matches Some(a) ==> a@ == raw@,
    {
        if raw.len() != ADDRESS_LEN {
            return None;
        }
        let mut bytes = [0u8; 21];
        let mut i: usize = 0;
        while i < ADDRESS_LEN
            invariant
                i <= ADDRESS_LEN,
                raw@.len() == ADDRESS_LEN,
                forall|j: int| 0 <= j < i ==> bytes@[j] == raw@[j],
            decreases ADDRESS_LEN - i,
        {
            bytes[i] = raw[i];
            i += 1;
        }
        let a = Address { bytes };
        proof {
            assert(a@ =~= raw@);
            Self::lemma_with_bytes(raw@);
            Self::lemma_view_injective(a, Self::with_bytes(raw@));
        }
        Some(a)
    }

    /// The address as a byte vector.
    pub fn to_bytes(&self) -> (out: Vec<u8>)
        ensures
            out@ == self@,
    {
        let mut out: Vec<u8> = Vec::new();
        let mut i: usize = 0;
        while i < ADDRESS_LEN
            invariant
                i <= ADDRESS_LEN,
                out@.len() == i,
                forall|j: int| 0 <= j < i ==> out@[j] == self.bytes@[j],
            decreases ADDRESS_LEN - i,
        {
            out.push(self.bytes[i]);
            i += 1;
        }
        out
    }

    /// Whether two addresses are equal, byte by byte.
    pub fn same(&self, other: &Address) -> (b: bool)
        ensures
            b == (*self == *other),
    {
        let mut i: usize = 0;
        while i < ADDRESS_LEN
            invariant
                i <= ADDRESS_LEN,
                forall|j: int| 0 <= j < i ==> self.bytes@[j] == other.bytes@[j],
            decreases ADDRESS_LEN - i,
        {
            if self.bytes[i] != other.bytes[i] {
                return false;
            }
            i += 1;
        }
        proof {
            assert(self@ =~= other@);
            Address::lemma_view_injective(*self, *other);
        }
        true
    }
}

} // verus!
