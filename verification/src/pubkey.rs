use vstd::prelude::*;

verus! {

/// A 32-byte account address.
#[derive(Clone, Copy, Debug)]
pub struct Pubkey {
    pub bytes: [u8; 32],
}

/// Two keys name the same account exactly when their bytes agree.
pub open spec fn same_key(a: Pubkey, b: Pubkey) -> bool {
    a.bytes@ == b.bytes@
}

impl Pubkey {
    /// The key whose bytes are all zero.
    pub open spec fn spec_zero() -> Pubkey {
        Pubkey { bytes: vstd::array::spec_array_fill_for_copy_type::<u8, 32>(0u8) }
    }

    /// The key whose bytes are all zero, the value of an unset key field.
    pub fn default_key() -> (k: Pubkey)
        ensures
            k == Pubkey::spec_zero(),
    {
        Pubkey { bytes: [0u8; 32] }
    }

    pub fn new_from_array(bytes: [u8; 32]) -> (k: Pubkey)
        ensures
            k.bytes@ == bytes@,
    {
        Pubkey { bytes }
    }

    pub fn to_bytes(&self) -> (b: [u8; 32])
        ensures
            b@ == self.bytes@,
    {
        self.bytes
    }

    /// Two keys are the same address when their bytes agree.
    pub fn key_eq(&self, other: &Pubkey) -> (res: bool)
        ensures
            res == same_key(*self, *other),
    {
        let mut i: usize = 0;
        while i < 32
            invariant
                0 <= i <= 32,
                self.bytes@.len() == 32,
                other.bytes@.len() == 32,
                forall|j: int| 0 <= j < i ==> self.bytes@[j] == other.bytes@[j],
            decreases 32 - i,
        {
            if self.bytes[i] != other.bytes[i] {
                assert(self.bytes@[i as int] != other.bytes@[i as int]);
                return false;
            }
            i = i + 1;
        }
        assert(self.bytes@ =~= other.bytes@);
        true
    }
}

} // verus!
