//! Fresh nonces from the operating system's random source.

use vstd::prelude::*;
use vstd::string::*;

verus! {

/// The error that the operating system's random source reports. Nothing is
/// known of a value of it.
#[verifier::external_type_specification]
#[verifier::external_body]
pub struct ExRandomSourceError(getrandom::Error);

/// Fills `buf` with bytes from `getrandom::getrandom`, or hands on the error
/// it reported. Nothing is claimed of the bytes, which differ from call to
/// call; only that the buffer keeps its length.
#[verifier::external_body]
fn fill_random(buf: &mut Vec<u8>) -> (r: Result<(), getrandom::Error>)
    ensures
        final(buf)@.len() == old(buf)@.len(),
{
    getrandom::getrandom(buf.as_mut_slice())
}

/// How many random bytes make a nonce: 128 bits.
pub const NONCE_BYTES: usize = 16;

/// The lower-case hexadecimal digit for `n`, which is under 16.
pub open spec fn hex_char(n: u8) -> char {
    match n {
        0 => '0',
        1 => '1',
        2 => '2',
        3 => '3',
        4 => '4',
        5 => '5',
        6 => '6',
        7 => '7',
        8 => '8',
        9 => '9',
        10 => 'a',
        11 => 'b',
        12 => 'c',
        13 => 'd',
        14 => 'e',
        _ => 'f',
    }
}

/// Lower-case hexadecimal text of `bytes`, two digits for each byte, the
/// high half first.
pub open spec fn hex(bytes: Seq<u8>) -> Seq<char>
    decreases bytes.len(),
{
    if bytes.len() == 0 {
        Seq::empty()
    } else {
        hex(bytes.drop_last()) + seq![hex_char(bytes.last() >> 4), hex_char(bytes.last() & 15)]
    }
}

/// Hexadecimal text has two characters for each byte.
pub proof fn hex_len(bytes: Seq<u8>)
    ensures
        hex(bytes).len() == 2 * bytes.len(),
    decreases bytes.len(),
{
    if bytes.len() > 0 {
        hex_len(bytes.drop_last());
    }
}

fn hex_digit(n: u8) -> (r: &'static str)
    requires
        n < 16,
    ensures
        r@ == seq![hex_char(n)],
{
    proof {
        reveal_strlit("0");
        reveal_strlit("1");
        reveal_strlit("2");
        reveal_strlit("3");
        reveal_strlit("4");
        reveal_strlit("5");
        reveal_strlit("6");
        reveal_strlit("7");
        reveal_strlit("8");
        reveal_strlit("9");
        reveal_strlit("a");
        reveal_strlit("b");
        reveal_strlit("c");
        reveal_strlit("d");
        reveal_strlit("e");
        reveal_strlit("f");
    }
    let r = match n {
        0 => "0",
        1 => "1",
        2 => "2",
        3 => "3",
        4 => "4",
        5 => "5",
        6 => "6",
        7 => "7",
        8 => "8",
        9 => "9",
        10 => "a",
        11 => "b",
        12 => "c",
        13 => "d",
        14 => "e",
        _ => "f",
    };
    assert(r@ =~= seq![hex_char(n)]);
    r
}

/// The text of a nonce made from the bytes `seed`: their hexadecimal form.
pub fn nonce_text(seed: &[u8]) -> (r: String)
    ensures
        r@ == hex(seed@),
        r@.len() == 2 * seed@.len(),
{
    let mut out = String::new();
    let mut i: usize = 0;
    assert(seed@.take(0) =~= Seq::<u8>::empty());
    while i < seed.len()
        invariant
            i <= seed.len(),
            out@ == hex(seed@.take(i as int)),
        decreases seed.len() - i,
    {
        let b = seed[i];
        let hi = b >> 4;
        let lo = b & 15;
        assert(hi < 16 && lo < 16) by (bit_vector)
            requires
                hi == b >> 4,
                lo == b & 15,
        ;
        out.append(hex_digit(hi));
        out.append(hex_digit(lo));
        proof {
            let upto = seed@.take(i + 1);
            assert(upto.drop_last() =~= seed@.take(i as int));
            assert(upto.last() == b);
            assert(out@ =~= hex(upto));
        }
        i += 1;
    }
    proof {
        assert(seed@.take(seed.len() as int) =~= seed@);
        hex_len(seed@);
    }
    out
}

/// What one reading of the random source comes to: where the source filled
/// the buffer, the nonce made of the bytes it holds; where the source
/// reported an error, nothing.
pub fn nonce_from(outcome: Result<(), getrandom::Error>, seed: &[u8]) -> (r: Option<String>)
    ensures
        match r {
            Some(nonce) => outcome is Ok && nonce@ == hex(seed@),
            None => outcome is Err,
        },
{
    match outcome {
        Ok(()) => Some(nonce_text(seed)),
        Err(_) => None,
    }
}

/// A fresh nonce of 128 random bits, as 32 hexadecimal characters; `None`
/// when the operating system's random source fails. The random source is
/// asked for [`NONCE_BYTES`] bytes, and [`nonce_from`] decides what comes of
/// its answer.
pub fn fresh_nonce() -> (r: Option<String>)
    ensures
        match r {
            Some(nonce) => exists|seed: Seq<u8>|
                seed.len() == NONCE_BYTES && nonce@ == #[trigger] hex(seed),
            None => true,
        },
{
    let mut seed: Vec<u8> = Vec::new();
    while seed.len() < NONCE_BYTES
        invariant
            seed.len() <= NONCE_BYTES,
        decreases NONCE_BYTES - seed.len(),
    {
        seed.push(0u8);
    }
    let outcome = fill_random(&mut seed);
    assert(seed@.len() == NONCE_BYTES);
    nonce_from(outcome, seed.as_slice())
}

} // verus!
