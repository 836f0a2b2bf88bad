//! Client secrets: 32 letters and digits made from random bytes. Bytes from 248 up are
//! skipped, so that each of the 62 characters is equally likely.

use vstd::prelude::*;
use vstd::string::*;

verus! {

/// The characters a client secret is made of: `A`–`Z`, `a`–`z`, `0`–`9`.
pub open spec fn secret_alphabet() -> Seq<char> {
    "ABCDEFGHIJKLMNOPQRSTUVWXYZabcdefghijklmnopqrstuvwxyz0123456789"@
}

/// How many characters a client secret has.
pub const CLIENT_SECRET_LEN: usize = 32;

/// The bytes that are used, in order: those below 248 (the largest multiple of 62 that
/// a byte can hold).
pub open spec fn usable_draws(d: Seq<u8>) -> Seq<u8>
    decreases d.len(),
{
    if d.len() == 0 {
        seq![]
    } else if d.last() < 248 {
        usable_draws(d.drop_last()).push(d.last())
    } else {
        usable_draws(d.drop_last())
    }
}

/// The character a used byte stands for.
pub open spec fn secret_char(b: u8) -> char {
    secret_alphabet()[(b % 62) as int]
}

/// The characters the used bytes stand for.
pub open spec fn secret_chars(u: Seq<u8>) -> Seq<char> {
    u.map_values(|b: u8| secret_char(b))
}

proof fn lemma_usable_prefix(d: Seq<u8>, i: int)
    requires
        0 <= i <= d.len(),
    ensures
        usable_draws(d.take(i)).is_prefix_of(usable_draws(d)),
    decreases d.len() - i,
{
    if i < d.len() {
        lemma_usable_prefix(d, i + 1);
        assert(d.take(i + 1).drop_last() =~= d.take(i));
    } else {
        assert(d.take(i) =~= d);
    }
}

/// The client secret that the random bytes `draws` make: the characters of the first 32
/// used bytes, or `None` where fewer than 32 bytes are usable.
pub fn client_secret_from_draws(draws: &[u8]) -> (r: Option<String>)
    ensures
        usable_draws(draws@).len() >= 32 ==> (r matches Some(s) && s@ == secret_chars(
            usable_draws(draws@).take(32),
        )),
        usable_draws(draws@).len() < 32 ==> r is None,
        r matches Some(s) ==> s@.len() == 32 && forall|k: int|
            0 <= k < 32 ==> secret_alphabet().contains(#[trigger] s@[k]),
{
    let alphabet = "ABCDEFGHIJKLMNOPQRSTUVWXYZabcdefghijklmnopqrstuvwxyz0123456789";
    proof {
        reveal_strlit("ABCDEFGHIJKLMNOPQRSTUVWXYZabcdefghijklmnopqrstuvwxyz0123456789");
    }
    assert(alphabet@.len() == 62);
    let mut out = String::new();
    let mut count: usize = 0;
    let mut i: usize = 0;
    while i < draws.len() && count < CLIENT_SECRET_LEN
        invariant
            alphabet@ == secret_alphabet(),
            alphabet@.len() == 62,
            i <= draws@.len(),
            count <= 32,
            count == usable_draws(draws@.take(i as int)).len(),
            out@ == secret_chars(usable_draws(draws@.take(i as int))),
        decreases draws.len() - i,
    {
        let b = draws[i];
        let ghost before = usable_draws(draws@.take(i as int));
        assert(draws@.take(i + 1).drop_last() =~= draws@.take(i as int));
        assert(draws@.take(i + 1).last() == b);
        if b < 248 {
            let k = (b % 62) as usize;
            let piece = alphabet.substring_char(k, k + 1);
            out.append(piece);
            count = count + 1;
            assert(piece@ =~= seq![secret_char(b)]);
            assert(out@ =~= secret_chars(before.push(b)));
        }
        i = i + 1;
    }
    proof {
        lemma_usable_prefix(draws@, i as int);
        if i == draws.len() {
            assert(draws@.take(i as int) =~= draws@);
        }
    }
    if count < CLIENT_SECRET_LEN {
        None
    } else {
        let ghost u = usable_draws(draws@);
        let ghost p = usable_draws(draws@.take(i as int));
        assert(u.take(32) =~= p);
        assert forall|k: int| 0 <= k < 32 implies secret_alphabet().contains(#[trigger] out@[k]) by {
            let b = p[k];
            assert(out@[k] == secret_alphabet()[(b % 62) as int]);
        }
        Some(out)
    }
}

} // verus!
