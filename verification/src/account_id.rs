use vstd::prelude::*;

verus! {

/// An account identity: 32 bytes, as the collaborating storage layer hands
/// them in. Used both for a registry's owner and for the external handles
/// kept in `device_ids`. Compared only for byte-for-byte equality.
#[derive(Clone, Copy, Debug)]
pub struct AccountId {
    pub bytes: [u8; 32],
}

impl View for AccountId {
    type V = Seq<u8>;

    open spec fn view(&self) -> Seq<u8> {
        self.bytes@
    }
}

impl AccountId {
    /// Byte-for-byte equality of two identities.
    pub fn equals(&self, other: &AccountId) -> (r: bool)
        ensures
            r == (self@ == other@),
    {
        let mut i: usize = 0;
        while i < 32
            invariant
                i <= 32,
                forall|j: int| 0 <= j < i ==> self.bytes@[j] == other.bytes@[j],
            decreases 32 - i,
        {
            if self.bytes[i] != other.bytes[i] {
                assert(self@ != other@) by {
                    assert(self.bytes@[i as int] != other.bytes@[i as int]);
                }
                return false;
            }
            i += 1;
        }
        assert(self@ =~= other@);
        true
    }
}

} // verus!
