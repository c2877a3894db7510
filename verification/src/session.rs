//! The admin capability token: a random string issued once at process
//! start and compared for exact equality on each request.

use vstd::prelude::*;
use vstd::string::StrSliceExecFns;

verus! {

/// The alphabet the token is drawn from.
pub open spec fn token_symbols_spec() -> Seq<char> {
    "abcdefghijklmnopqrstuvyzABCDEFGHIJKLMNOPQRSTUVYZ1234567890"@
}

/// A random token of `len` characters, each drawn from the alphabet.
pub fn random_str(len: u32) -> (r: String)
    ensures
        r@.len() == len as nat,
        forall|i: int| 0 <= i < r@.len() ==> token_symbols_spec().contains(#[trigger] r@[i]),
{
    let symbols: &str = "abcdefghijklmnopqrstuvyzABCDEFGHIJKLMNOPQRSTUVYZ1234567890";
    proof {
        reveal_strlit("abcdefghijklmnopqrstuvyzABCDEFGHIJKLMNOPQRSTUVYZ1234567890");
    }
    let n: usize = symbols.unicode_len();
    let mut s: String = String::new();
    let mut k: u32 = 0;
    while k < len
        invariant
            k <= len,
            n == symbols@.len(),
            n > 0,
            symbols@ == token_symbols_spec(),
            s@.len() == k as nat,
            forall|i: int| 0 <= i < s@.len() ==> token_symbols_spec().contains(#[trigger] s@[i]),
        decreases len - k,
    {
        let j: usize = crate::rng::random_below(n);
        let c: char = symbols.get_char(j);
        proof {
            assert(token_symbols_spec()[j as int] == c);
            assert(token_symbols_spec().contains(c));
        }
        crate::strutil::push_char(&mut s, c);
        k = k + 1;
    }
    s
}

} // verus!
