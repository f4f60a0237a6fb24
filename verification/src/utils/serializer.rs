//! UUIDs as 32 lowercase hexadecimal digits without dashes.

use vstd::prelude::*;
use crate::text::{hex_digits, is_hex_char, lemma_hex_digits_shape};

verus! {

/// `Uuid::from_u128(bits).simple().to_string()`: the UUID's 16 bytes, most
/// significant first, as 32 lowercase hexadecimal digits.
#[verifier::external_body]
pub(crate) fn uuid_simple(bits: u128) -> (s: String)
    ensures
        s@ == hex_digits(bits as nat, 32),
{
    uuid::Uuid::from_u128(bits).simple().to_string()
}

/// The text a UUID is serialized as: lowercase, without dashes.
pub fn uuid_without_dashes(uuid: u128) -> (s: String)
    ensures
        s@ == hex_digits(uuid as nat, 32),
        s@.len() == 32,
        forall|i: int| 0 <= i < 32 ==> is_hex_char(#[trigger] s@[i]),
{
    proof {
        lemma_hex_digits_shape(uuid as nat, 32);
    }
    uuid_simple(uuid)
}

} // verus!
