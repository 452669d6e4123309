use crate::text::{all_alphanumeric, is_alphanumeric};
use rand::Rng;
use vstd::prelude::*;

verus! {

/// One character drawn by `rand::Rng::sample` from the distribution
/// `rand::distr::Alphanumeric`, on the generator that `rand::rng` returns
/// for the calling thread. The distribution picks a byte out of
/// `A`-`Z`, `a`-`z`, `0`-`9`; which one is up to chance, so the contract
/// says only that much.
#[verifier::external_body]
fn random_alphanumeric() -> (c: char)
    ensures
        is_alphanumeric(c),
{
    char::from(rand::rng().sample(rand::distr::Alphanumeric))
}

/// A fresh random string of exactly `len` alphanumeric characters.
pub fn gen_random_string(len: usize) -> (text: String)
    ensures
        text@.len() == len,
        all_alphanumeric(text@),
{
    let mut text = String::new();
    let mut n: usize = 0;
    while n < len
        invariant
            n <= len,
            text@.len() == n,
            all_alphanumeric(text@),
        decreases len - n,
    {
        text.push(random_alphanumeric());
        n = n + 1;
    }
    text
}

} // verus!
