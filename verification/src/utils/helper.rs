//! Token generation.

use vstd::prelude::*;
use crate::text::{hex_digits, push_str, lemma_hex_digits_shape};
use crate::utils::serializer::uuid_simple;

verus! {

/// `Uuid::new_v4().as_u128()`: a random version-4 UUID; its version nibble
/// is 4 and its variant bits are `10`, the other bits are random.
#[verifier::external_body]
fn new_v4_bits() -> (r: u128)
    ensures
        (r >> 76u128) & 0xfu128 == 4,
        (r >> 62u128) & 0x3u128 == 2,
{
    uuid::Uuid::new_v4().as_u128()
}

/// The token for a token id and a parameter id: the two UUIDs as 32
/// lowercase hexadecimal digits each, token id first.
pub fn token_for(token_id: u128, param_id: u128) -> (token: String)
    ensures
        token@ == hex_digits(token_id as nat, 32) + hex_digits(param_id as nat, 32),
{
    let mut token = uuid_simple(token_id);
    let param = uuid_simple(param_id);
    push_str(&mut token, param.as_str());
    token
}

/// A new random version-4 token id with the token made from it and `param_id`.
pub fn generate_token(param_id: u128) -> (r: (u128, String))
    ensures
        (r.0 >> 76u128) & 0xfu128 == 4,
        r.1@ == hex_digits(r.0 as nat, 32) + hex_digits(param_id as nat, 32),
        r.1@.len() == 64,
        r.1@.skip(32) == hex_digits(param_id as nat, 32),
{
    proof {
        lemma_hex_digits_shape(param_id as nat, 32);
    }
    let token_id = new_v4_bits();
    let token = token_for(token_id, param_id);
    proof {
        lemma_hex_digits_shape(token_id as nat, 32);
        assert(token@.skip(32) =~= hex_digits(param_id as nat, 32));
    }
    (token_id, token)
}

} // verus!
