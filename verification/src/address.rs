use vstd::prelude::*;

verus! {

/// A 32-byte ledger address: a wallet, an asset identity, a holding account,
/// a derived record or a module identity.
#[derive(Clone, Copy, Debug)]
pub struct Address {
    pub bytes: [u8; 32],
}

impl View for Address {
    type V = Seq<u8>;

    open spec fn view(&self) -> Seq<u8> {
        self.bytes@
    }
}

impl Address {
    /// The address made of the given bytes.
    pub fn new(bytes: [u8; 32]) -> (a: Address)
        ensures
            a@ == bytes@,
            a.bytes == bytes,
    {
        Address { bytes }
    }

    /// The bytes of the address.
    pub fn to_bytes(&self) -> (b: [u8; 32])
        ensures
            b@ == self@,
    {
        self.bytes
    }

    /// The bytes of the address as a seed.
    pub fn to_seed(&self) -> (s: Vec<u8>)
        ensures
            s@ == self@,
    {
        let mut s: Vec<u8> = Vec::new();
        let mut i: usize = 0;
        while i < 32
            invariant
                i <= 32,
                s@ == self@.subrange(0, i as int),
            decreases 32 - i,
        {
            s.push(self.bytes[i]);
            i = i + 1;
        }
        s
    }

    /// Whether two addresses are the same, byte for byte.
    pub fn same(&self, other: &Address) -> (r: bool)
        ensures
            r == (self@ == other@),
            r == (*self == *other),
    {
        let mut i: usize = 0;
        while i < 32
            invariant
                i <= 32,
                forall|j: int| 0 <= j < i ==> self.bytes[j] == other.bytes[j],
            decreases 32 - i,
        {
            if self.bytes[i] != other.bytes[i] {
                return false;
            }
            i = i + 1;
        }
        assert(self.bytes =~= other.bytes);
        true
    }
}

impl PartialEq for Address {
    fn eq(&self, other: &Address) -> (r: bool) {
        self.same(other)
    }
}

impl Eq for Address {

}

impl vstd::std_specs::cmp::PartialEqSpecImpl for Address {
    open spec fn obeys_eq_spec() -> bool {
        true
    }

    open spec fn eq_spec(&self, other: &Address) -> bool {
        *self == *other
    }
}

/// Two addresses with the same bytes are the same address.
pub proof fn address_extensionality(a: Address, b: Address)
    ensures
        (a@ == b@) == (a == b),
{
    if a@ == b@ {
        assert(forall|j: int| 0 <= j < 32 ==> a.bytes[j] == a.bytes@[j]);
        assert(forall|j: int| 0 <= j < 32 ==> b.bytes[j] == b.bytes@[j]);
        assert(a.bytes =~= b.bytes);
    }
}

/// Some address whose bytes are the given ones.
pub open spec fn address_of(bytes: Seq<u8>) -> Address {
    choose|a: Address| a@ == bytes
}

/// The address with the bytes of an address is that address.
pub proof fn address_of_view(a: Address)
    ensures
        address_of(a@) == a,
{
    address_extensionality(address_of(a@), a);
}

} // verus!
