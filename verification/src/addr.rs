//! Ledger account addresses as plain 32-byte values.

use vstd::prelude::*;

verus! {

/// A ledger account address.
#[derive(Clone, Copy, Debug)]
pub struct Addr {
    pub bytes: [u8; 32],
}

impl View for Addr {
    type V = Seq<u8>;

    open spec fn view(&self) -> Seq<u8> {
        self.bytes@
    }
}

impl Addr {
    pub fn new(bytes: [u8; 32]) -> (r: Addr)
        ensures
            r@ == bytes@,
    {
        Addr { bytes }
    }
}

impl PartialEq for Addr {
    fn eq(&self, other: &Addr) -> (r: bool) {
        let mut i: usize = 0;
        while i < 32
            invariant
                0 <= i <= 32,
                forall|j: int| 0 <= j < i ==> self.bytes@[j] == other.bytes@[j],
            decreases 32 - i,
        {
            if self.bytes[i] != other.bytes[i] {
                return false;
            }
            i += 1;
        }
        proof {
            assert(self.bytes@ =~= other.bytes@);
        }
        true
    }
}

impl Eq for Addr {}

impl vstd::std_specs::cmp::PartialEqSpecImpl for Addr {
    open spec fn obeys_eq_spec() -> bool {
        true
    }

    open spec fn eq_spec(&self, other: &Addr) -> bool {
        self.bytes@ == other.bytes@
    }
}

/// The base account service's singleton address: thirty-two zero bytes.
pub open spec fn system_program_id_bytes() -> Seq<u8> {
    Seq::new(32, |i: int| 0u8)
}

/// The base account service's singleton address, as a value.
pub fn system_program_id() -> (r: Addr)
    ensures
        r@ == system_program_id_bytes(),
{
    let a = Addr { bytes: [0u8; 32] };
    proof {
        vstd::array::axiom_spec_array_fill_for_copy_type::<u8, 32>(0u8);
        assert(a@ =~= system_program_id_bytes());
    }
    a
}

} // verus!
