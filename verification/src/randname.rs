//! Random base names. When no header supplies a file name, the sink
//! synthesizes one: a fixed number of characters drawn uniformly from
//! the ASCII alphanumeric alphabet, a dot, then the chosen extension.
//! Nothing is assumed of the draw beyond its length and alphabet, so
//! every contract downstream holds for every possible outcome.
use vstd::prelude::*;
use crate::model::DOT;

verus! {

/// How many random characters a synthesized name starts with. The
/// keyspace of 62 to this power makes collisions negligible.
pub const RAND_LEN: usize = 16;

/// Holds when `b` is an ASCII alphanumeric byte: a digit or a letter.
pub open spec fn is_alnum_byte(b: u8) -> bool {
    (48 <= b <= 57) || (65 <= b <= 90) || (97 <= b <= 122)
}

/// Holds when every byte of `s` is ASCII alphanumeric.
pub open spec fn all_alnum(s: Seq<u8>) -> bool {
    forall|i: int| 0 <= i < s.len() ==> is_alnum_byte(s[i])
}

/// Holds when `name` has the shape of a synthesized file name: exactly
/// [`RAND_LEN`] alphanumeric characters, a dot, then `ext`.
pub open spec fn is_random_name(name: Seq<u8>, ext: Seq<u8>) -> bool {
    &&& name.len() == RAND_LEN + 1 + ext.len()
    &&& all_alnum(name.subrange(0, RAND_LEN as int))
    &&& name[RAND_LEN as int] == DOT
    &&& name.subrange(RAND_LEN + 1, name.len() as int) == ext
}

/// Relies on rand's `Alphanumeric` distribution over the thread rng:
/// each drawn byte is one of the 62 ASCII alphanumeric characters,
/// uniformly. Only the length and the alphabet are assumed; the drawn
/// values themselves are not.
#[verifier::external_body]
fn random_alnum_bytes(n: usize) -> (r: Vec<u8>)
    ensures
        r@.len() == n,
        all_alnum(r@),
{
    <rand::distr::Alphanumeric as rand::distr::Distribution<u8>>::sample_iter(
        rand::distr::Alphanumeric,
        rand::rng(),
    ).take(n).collect()
}

/// Synthesizes a fresh random file name for the extension `ext`:
/// [`RAND_LEN`] alphanumeric characters, a dot, then `ext`.
pub fn gen_rand_name(ext: &[u8]) -> (r: Vec<u8>)
    ensures
        is_random_name(r@, ext@),
{
    let mut name = random_alnum_bytes(RAND_LEN);
    let ghost head = name@;
    name.push(DOT);
    let mut tail = vstd::slice::slice_to_vec(ext);
    name.append(&mut tail);
    proof {
        assert(name@ =~= head + seq![DOT] + ext@);
        assert(name@.subrange(0, RAND_LEN as int) =~= head);
        assert(name@.subrange(RAND_LEN + 1, name@.len() as int) =~= ext@);
    }
    name
}

} // verus!
