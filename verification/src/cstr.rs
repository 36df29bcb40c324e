//! Names handed to the driver as C strings.

use vstd::prelude::*;

verus! {

/// Whether no byte of `bytes` is the NUL that ends a C string.
pub open spec fn free_of_nul(bytes: Seq<u8>) -> bool {
    forall|i: int| 0 <= i < bytes.len() ==> bytes[i] != 0
}

/// Whether `bytes` can be the contents of a C string: they hold no NUL.
pub fn validate_cstr_contents(bytes: &[u8]) -> (valid: bool)
    ensures
        valid == free_of_nul(bytes@),
{
    let mut i: usize = 0;
    while i < bytes.len()
        invariant
            i <= bytes@.len(),
            forall|j: int| 0 <= j < i ==> bytes@[j] != 0,
        decreases bytes@.len() - i,
    {
        if bytes[i] == 0 {
            return false;
        }
        i += 1;
    }
    true
}

} // verus!
