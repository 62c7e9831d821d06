use rand::Rng;
use vstd::prelude::*;

verus! {

/// Whether `c` is one of the sixty-two characters `0-9`, `A-Z`, `a-z`.
pub open spec fn is_alphanumeric_char(c: char) -> bool {
    let n = c as u32;
    (0x30 <= n && n <= 0x39) || (0x41 <= n && n <= 0x5a) || (0x61 <= n && n <= 0x7a)
}

/// Whether every character of `s` is alphanumeric.
pub open spec fn all_alphanumeric(s: Seq<char>) -> bool {
    forall|i: int| 0 <= i < s.len() ==> is_alphanumeric_char(#[trigger] s[i])
}

/// Draws `len` characters from the alphanumeric alphabet, uniformly and
/// independently, from a cryptographically acceptable generator.
///
/// Relies on `rand`'s `Alphanumeric` distribution sampled from `thread_rng`:
/// every sample is one of `0-9`, `A-Z`, `a-z`, and `take(len)` draws exactly
/// `len` of them. Nothing is assumed about which characters come out.
#[verifier::external_body]
pub(crate) fn random_alphanumeric(len: usize) -> (r: String)
    ensures
        r@.len() == len,
        all_alphanumeric(r@),
{
    rand::thread_rng().sample_iter(&rand::distributions::Alphanumeric).take(len).map(
        char::from,
    ).collect()
}

} // verus!
