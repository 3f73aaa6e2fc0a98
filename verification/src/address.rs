use vstd::prelude::*;

verus! {

/// Length of an address in its canonical text form (a strkey such as
/// `G...` for an account or `C...` for a contract).
pub const ADDR_LEN: usize = 56;

/// An account or contract address, held by its canonical strkey text.
#[derive(Clone, Copy, Debug, PartialEq, Eq)]
pub struct Addr {
    pub strkey: [u8; ADDR_LEN],
}

impl View for Addr {
    type V = Seq<u8>;

    open spec fn view(&self) -> Seq<u8> {
        self.strkey@
    }
}

impl Addr {
    /// Builds an address from its strkey bytes.
    pub fn new(strkey: [u8; ADDR_LEN]) -> (a: Addr)
        ensures
            a == (Addr { strkey }),
    {
        Addr { strkey }
    }

    /// Whether two values denote the same address.
    pub fn same_as(&self, other: &Addr) -> (r: bool)
        ensures
            r == (self@ == other@),
    {
        let mut i: usize = 0;
        while i < ADDR_LEN
            invariant
                i <= ADDR_LEN,
                self@.len() == ADDR_LEN,
                other@.len() == ADDR_LEN,
                forall|j: int| 0 <= j < i ==> self@[j] == other@[j],
            decreases ADDR_LEN - i,
        {
            if self.strkey[i] != other.strkey[i] {
                assert(self@[i as int] != other@[i as int]);
                return false;
            }
            i = i + 1;
        }
        assert(self@ =~= other@);
        true
    }
}

} // verus!
