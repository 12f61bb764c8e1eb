//! Ledger account addresses, held as plain 32-byte values and compared only
//! by value. Control of an address is never a stored credential: the custody
//! address of a market is re-derived from the market key on every claim (see
//! `claim`).

use vstd::prelude::*;

verus! {

/// A 32-byte account address on the host ledger.
#[derive(Clone, Copy, Debug)]
pub struct Addr {
    pub bytes: [u8; 32],
}

impl View for Addr {
    type V = Seq<u8>;

    open spec fn view(&self) -> Seq<u8> {
        self.bytes@
    }
}

/// True exactly when the two addresses hold the same 32 bytes.
pub fn addr_eq(a: &Addr, b: &Addr) -> (r: bool)
    ensures
        r == (a@ == b@),
{
    let mut i: usize = 0;
    while i < 32
        invariant
            0 <= i <= 32,
            forall|j: int| 0 <= j < i ==> a.bytes@[j] == b.bytes@[j],
        decreases 32 - i,
    {
        if a.bytes[i] != b.bytes[i] {
            assert(a@[i as int] != b@[i as int]);
            return false;
        }
        i = i + 1;
    }
    proof {
        assert(a@ =~= b@);
    }
    true
}

/// The bytes of the fixed program-owner address: the authority of every
/// market, whoever created it.
pub open spec fn program_owner_bytes() -> Seq<u8> {
    seq![
        112u8, 124, 185, 144, 65, 48, 97, 121, 5, 223, 70, 133, 232, 204, 58, 75,
        11, 193, 41, 81, 217, 128, 115, 192, 213, 237, 113, 141, 6, 119, 39, 234,
    ]
}

/// The bytes of the fixed protocol-treasury address, to which the claim fee
/// is paid. The same address as the program owner, in a distinct role.
pub open spec fn project_treasury_bytes() -> Seq<u8> {
    program_owner_bytes()
}

/// The fixed program-owner address.
pub fn program_owner() -> (r: Addr)
    ensures
        r@ == program_owner_bytes(),
{
    let bytes: [u8; 32] = [
        112u8, 124, 185, 144, 65, 48, 97, 121, 5, 223, 70, 133, 232, 204, 58, 75,
        11, 193, 41, 81, 217, 128, 115, 192, 213, 237, 113, 141, 6, 119, 39, 234,
    ];
    proof {
        assert(bytes@ =~= program_owner_bytes());
    }
    Addr { bytes }
}

/// The fixed protocol-treasury address.
pub fn project_treasury() -> (r: Addr)
    ensures
        r@ == project_treasury_bytes(),
{
    program_owner()
}

} // verus!
