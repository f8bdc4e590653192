//! Random text.

use rand::distributions::Alphanumeric;
use rand::Rng;
use vstd::prelude::*;

verus! {

/// `rand::thread_rng` sampled through `Alphanumeric`: as many random
/// characters as asked for, each a letter or a digit. Which ones, nobody
/// knows before.
#[verifier::external_body]
pub(crate) fn random_alphanumeric(length: usize) -> (text: String)
    ensures
        text@.len() == length,
{
    rand::thread_rng().sample_iter(&Alphanumeric).take(length).map(char::from).collect()
}

} // verus!
