//! Generation of random token values.

use vstd::prelude::*;

verus! {

/// Whether the character is ASCII alphanumeric: a digit or a letter.
pub open spec fn is_alphanumeric_char(c: char) -> bool {
    (48 <= c as u32 && c as u32 <= 57) || (65 <= c as u32 && c as u32 <= 90) || (97 <= c as u32
        && c as u32 <= 122)
}

/// Relies on `rand`'s thread-local generator sampled over the
/// `Alphanumeric` distribution: every drawn item is an ASCII
/// alphanumeric character. The result is random; nothing relates two
/// calls, and only its length and alphabet are known.
#[verifier::external_body]
pub fn generate_random_string(n: u8) -> (r: String)
    ensures
        r@.len() == n as int,
        forall|i: int| 0 <= i < r@.len() ==> is_alphanumeric_char(#[trigger] r@[i]),
{
    rand::Rng::sample_iter(rand::thread_rng(), &rand::distributions::Alphanumeric)
        .take(n as usize)
        .map(char::from)
        .collect()
}

} // verus!
