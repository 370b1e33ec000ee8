use vstd::prelude::*;

verus! {

/// A 32-byte account or mint identity, as the host ledger addresses accounts.
#[derive(Clone, Copy, Debug, PartialEq, Eq)]
pub struct Address {
    pub bytes: [u8; 32],
}

impl View for Address {
    type V = Seq<u8>;

    open spec fn view(&self) -> Seq<u8> {
        self.bytes@
    }
}

impl Address {
    /// The all-zero identity, used by configurations to mean "not set".
    pub fn zero() -> (a: Address)
        ensures
            a@ == Seq::new(32, |i: int| 0u8),
    {
        let a = Address { bytes: [0u8; 32] };
        proof {
            assert(a.bytes@ =~= Seq::new(32, |i: int| 0u8));
        }
        a
    }

    pub open spec fn is_zero(&self) -> bool {
        self@ == Seq::new(32, |i: int| 0u8)
    }
}

/// Byte-wise equality of two identities.
pub fn address_eq(a: &Address, b: &Address) -> (r: bool)
    ensures
        r <==> a@ == b@,
{
    let mut i: usize = 0;
    while i < 32
        invariant
            0 <= i <= 32,
            forall|j: int| 0 <= j < i ==> a.bytes@[j] == b.bytes@[j],
        decreases 32 - i,
    {
        if a.bytes[i] != b.bytes[i] {
            return false;
        }
        i = i + 1;
    }
    proof {
        assert(a.bytes@ =~= b.bytes@);
    }
    true
}

/// Whether an identity is the all-zero "not set" value.
pub fn address_is_zero(a: &Address) -> (r: bool)
    ensures
        r <==> a.is_zero(),
{
    let mut i: usize = 0;
    while i < 32
        invariant
            0 <= i <= 32,
            forall|j: int| 0 <= j < i ==> a.bytes@[j] == 0u8,
        decreases 32 - i,
    {
        if a.bytes[i] != 0 {
            assert(a.bytes@[i as int] != 0);
            return false;
        }
        i = i + 1;
    }
    proof {
        assert(a.bytes@ =~= Seq::new(32, |i: int| 0u8));
    }
    true
}

} // verus!
