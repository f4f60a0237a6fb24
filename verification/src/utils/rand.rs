//! Random alphanumeric strings.

use vstd::prelude::*;
use ::rand::seq::IndexedRandom;
use crate::text::push_char;

verus! {

#[verifier::external_type_specification]
#[verifier::external_body]
pub struct ExThreadRng(::rand::rngs::ThreadRng);

/// `rand::rng()`: the thread-local random generator.
#[verifier::external_body]
fn thread_rng() -> ::rand::rngs::ThreadRng {
    ::rand::rng()
}

/// `<[u8]>::choose`: `None` for an empty slice, else one of its elements,
/// picked at random.
#[verifier::external_body]
fn choose_byte(set: &[u8], rng: &mut ::rand::rngs::ThreadRng) -> (r: Option<u8>)
    ensures
        r is None <==> set@.len() == 0,
        r matches Some(b) ==> set@.contains(b),
{
    set.choose(rng).copied()
}

/// `String::leak`: the same text, living for the rest of the program.
#[verifier::external_body]
fn leak(s: String) -> (r: &'static str)
    ensures
        r@ == s@,
{
    s.leak()
}

/// An ASCII letter or digit.
pub open spec fn is_alphanumeric(c: char) -> bool {
    ('A' <= c && c <= 'Z') || ('a' <= c && c <= 'z') || ('0' <= c && c <= '9')
}

/// The `i`-th byte of the character set: `A`–`Z`, then `a`–`z`, then `0`–`9`.
pub open spec fn charset_byte(i: int) -> u8 {
    if i < 26 {
        (65 + i) as u8
    } else if i < 52 {
        (97 + (i - 26)) as u8
    } else {
        (48 + (i - 52)) as u8
    }
}

/// The byte values of `A`–`Z`, `a`–`z` and `0`–`9`, in that order.
fn charset() -> (r: Vec<u8>)
    ensures
        r@.len() == 62,
        forall|i: int| 0 <= i < 62 ==> #[trigger] r@[i] == charset_byte(i),
        forall|i: int| 0 <= i < r@.len() ==> is_alphanumeric(#[trigger] r@[i] as char),
{
    let mut r: Vec<u8> = Vec::new();
    let mut c: u8 = 65;
    while c < 91
        invariant
            65 <= c <= 91,
            r@.len() == c - 65,
            forall|i: int| 0 <= i < r@.len() ==> is_alphanumeric(#[trigger] r@[i] as char),
            forall|i: int| 0 <= i < r@.len() ==> #[trigger] r@[i] == charset_byte(i),
        decreases 91 - c,
    {
        r.push(c);
        c = c + 1;
    }
    c = 97;
    while c < 123
        invariant
            97 <= c <= 123,
            r@.len() == 26 + c - 97,
            forall|i: int| 0 <= i < r@.len() ==> is_alphanumeric(#[trigger] r@[i] as char),
            forall|i: int| 0 <= i < r@.len() ==> #[trigger] r@[i] == charset_byte(i),
        decreases 123 - c,
    {
        r.push(c);
        c = c + 1;
    }
    c = 48;
    while c < 58
        invariant
            48 <= c <= 58,
            r@.len() == 52 + c - 48,
            forall|i: int| 0 <= i < r@.len() ==> is_alphanumeric(#[trigger] r@[i] as char),
            forall|i: int| 0 <= i < r@.len() ==> #[trigger] r@[i] == charset_byte(i),
        decreases 58 - c,
    {
        r.push(c);
        c = c + 1;
    }
    r
}

/// `length` characters picked at random from `A`–`Z`, `a`–`z`, `0`–`9`.
pub fn random_str(length: usize) -> (r: &'static str)
    ensures
        r@.len() == length,
        forall|i: int| 0 <= i < length ==> is_alphanumeric(#[trigger] r@[i]),
{
    let set = charset();
    let mut rng = thread_rng();
    let mut s = String::new();
    let mut i: usize = 0;
    while i < length
        invariant
            set@.len() == 62,
            forall|t: int| 0 <= t < set@.len() ==> is_alphanumeric(#[trigger] set@[t] as char),
            i <= length,
            s@.len() == i,
            forall|t: int| 0 <= t < i ==> is_alphanumeric(#[trigger] s@[t]),
        decreases length - i,
    {
        match choose_byte(set.as_slice(), &mut rng) {
            Some(b) => {
                proof {
                    let t = choose|t: int| 0 <= t < set@.len() && set@[t] == b;
                    assert(is_alphanumeric(set@[t] as char));
                }
                push_char(&mut s, b as char);
            },
            None => {
                // The set is not empty, so a byte is always chosen.
                assert(false);
            },
        }
        i = i + 1;
    }
    leak(s)
}

} // verus!
