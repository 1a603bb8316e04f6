use vstd::prelude::*;
use vstd::std_specs::cmp::PartialEqSpecImpl;

verus! {

/// A 32-byte ledger address.
#[derive(Clone, Copy, Debug, Hash)]
pub struct Pubkey {
    pub bytes: [u8; 32],
}

impl PartialEq for Pubkey {
    fn eq(&self, other: &Self) -> (r: bool) {
        let mut i: usize = 0;
        while i < 32
            invariant
                i <= 32,
                forall|j: int| 0 <= j < i ==> self.bytes[j] == other.bytes[j],
            decreases 32 - i,
        {
            if self.bytes[i] != other.bytes[i] {
                return false;
            }
            i += 1;
        }
        assert(self.bytes == other.bytes);
        true
    }
}

impl Eq for Pubkey {

}

impl PartialEqSpecImpl for Pubkey {
    open spec fn obeys_eq_spec() -> bool {
        true
    }

    open spec fn eq_spec(&self, other: &Self) -> bool {
        *self == *other
    }
}

impl Pubkey {
    /// The address whose bytes are `bytes`.
    pub fn new_from_array(bytes: [u8; 32]) -> (r: Pubkey)
        ensures
            r.bytes == bytes,
    {
        Pubkey { bytes }
    }

    /// The 32 bytes of the address.
    pub fn to_bytes(&self) -> (r: [u8; 32])
        ensures
            r == self.bytes,
    {
        self.bytes
    }

    /// The address is the all-zero address, which belongs to the system program.
    pub open spec fn spec_is_system_program(&self) -> bool {
        forall|i: int| 0 <= i < 32 ==> self.bytes[i] == 0u8
    }

    /// Whether the address is the system program's, which stands for "no key".
    #[verifier::when_used_as_spec(spec_is_system_program)]
    pub fn is_system_program(&self) -> (r: bool)
        ensures
            r == self.spec_is_system_program(),
    {
        let id = system_program_id();
        proof {
            if self.spec_is_system_program() {
                assert(self.bytes == id.bytes);
            }
        }
        *self == id
    }
}

/// The address made of the 32 bytes of `data` that start at `offset`.
pub open spec fn pubkey_at(data: Seq<u8>, offset: int) -> Pubkey
    recommends
        0 <= offset,
        offset + 32 <= data.len(),
{
    Pubkey { bytes: key_bytes(data.subrange(offset, offset + 32)) }
}

/// The array that holds the 32 bytes of `s`.
pub open spec fn key_bytes(s: Seq<u8>) -> [u8; 32]
    recommends
        s.len() == 32,
{
    choose|a: [u8; 32]| a@ == s
}

/// Every sequence of 32 bytes is the content of exactly one array.
pub proof fn lemma_key_bytes(a: [u8; 32])
    ensures
        key_bytes(a@) == a,
{
    let b = key_bytes(a@);
    assert(b@ =~= a@);
}

/// Reads the address stored in `data[offset .. offset + 32]`.
pub(crate) fn read_pubkey(data: &[u8], offset: usize) -> (r: Pubkey)
    requires
        offset + 32 <= data.len(),
    ensures
        r == pubkey_at(data@, offset as int),
{
    let mut bytes: [u8; 32] = [0u8; 32];
    let mut i: usize = 0;
    while i < 32
        invariant
            i <= 32,
            offset + 32 <= data.len(),
            forall|j: int| 0 <= j < i ==> bytes[j] == data@[offset + j],
        decreases 32 - i,
    {
        bytes[i] = data[offset + i];
        i += 1;
    }
    proof {
        assert(bytes@ =~= data@.subrange(offset as int, offset + 32));
        lemma_key_bytes(bytes);
    }
    Pubkey { bytes }
}

/// The system program's address, as `anchor_lang::system_program::ID` gives it: that
/// constant is declared from the base-58 text of thirty-two `1`s, which decodes to
/// thirty-two zero bytes.
#[verifier::external_body]
pub(crate) fn system_program_id() -> (r: Pubkey)
    ensures
        r.spec_is_system_program(),
{
    Pubkey { bytes: anchor_lang::system_program::ID.to_bytes() }
}

} // verus!
