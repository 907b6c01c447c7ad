use vstd::prelude::*;

verus! {

/// A fixed-size event identifier, compared byte by byte.
#[derive(Clone, Copy, Debug)]
pub struct EventId {
    pub bytes: [u8; 32],
}

impl View for EventId {
    type V = Seq<u8>;

    open spec fn view(&self) -> Seq<u8> {
        self.bytes@
    }
}

impl EventId {
    pub fn from_bytes(bytes: [u8; 32]) -> (r: EventId)
        ensures
            r@ == bytes@,
    {
        EventId { bytes }
    }

    /// Byte-exact equality of two identifiers.
    pub fn same(&self, other: &EventId) -> (r: bool)
        ensures
            r == (self@ == other@),
    {
        let mut i: usize = 0;
        while i < 32
            invariant
                i <= 32,
                forall|j: int| 0 <= j < i ==> self@[j] == other@[j],
            decreases 32 - i,
        {
            if self.bytes[i] != other.bytes[i] {
                assert(self@[i as int] != other@[i as int]);
                return false;
            }
            i += 1;
        }
        assert(self@ =~= other@);
        true
    }
}

/// An opaque principal, identified by its canonical text form.
#[derive(Clone, Debug)]
pub struct Address {
    pub key: String,
}

impl View for Address {
    type V = Seq<char>;

    open spec fn view(&self) -> Seq<char> {
        self.key@
    }
}

impl Address {
    pub fn new(key: String) -> (r: Address)
        ensures
            r@ == key@,
    {
        Address { key }
    }

    pub fn same(&self, other: &Address) -> (r: bool)
        ensures
            r == (self@ == other@),
    {
        self.key == other.key
    }

    pub fn duplicate(&self) -> (r: Address)
        ensures
            r@ == self@,
    {
        Address { key: self.key.clone() }
    }
}

/// The views of a sequence of identifiers.
pub open spec fn ids_view(s: Seq<EventId>) -> Seq<Seq<u8>> {
    s.map_values(|e: EventId| e@)
}

/// The views of a sequence of addresses.
pub open spec fn addrs_view(s: Seq<Address>) -> Seq<Seq<char>> {
    s.map_values(|a: Address| a@)
}

} // verus!
