//! Base64 encoding (standard alphabet, `=` padding) used for unsubscribe
//! tokens.
use vstd::prelude::*;
use crate::text::{chars_of, push_char};

verus! {

/// The 64 characters of the standard alphabet, in order.
pub open spec fn alphabet() -> Seq<char> {
    "ABCDEFGHIJKLMNOPQRSTUVWXYZabcdefghijklmnopqrstuvwxyz0123456789+/"@
}

/// The four characters for a group of `n` input bytes (1 to 3), the missing
/// bytes read as zero: the 24 bits are cut into four 6-bit indices, and the
/// indices that only cover padding are shown as `=`.
pub open spec fn quad(b1: u8, b2: u8, b3: u8, n: nat) -> Seq<char> {
    let c: int = b1 as int * 65536 + b2 as int * 256 + b3 as int;
    seq![
        alphabet()[(c / 262144) % 64],
        alphabet()[(c / 4096) % 64],
        if n > 1 { alphabet()[(c / 64) % 64] } else { '=' },
        if n > 2 { alphabet()[c % 64] } else { '=' },
    ]
}

/// The Base64 text of a byte sequence, three bytes at a time.
pub open spec fn encode_spec(s: Seq<u8>) -> Seq<char>
    decreases s.len(),
{
    if s.len() == 0 {
        Seq::empty()
    } else if s.len() < 3 {
        quad(s[0], if s.len() > 1 { s[1] } else { 0 }, 0, s.len())
    } else {
        quad(s[0], s[1], s[2], 3) + encode_spec(s.skip(3))
    }
}

/// Encodes bytes as Base64 with the standard alphabet and `=` padding.
pub fn encode(input: &[u8]) -> (res: String)
    ensures
        res@ == encode_spec(input@),
{
    let alpha = chars_of("ABCDEFGHIJKLMNOPQRSTUVWXYZabcdefghijklmnopqrstuvwxyz0123456789+/");
    proof {
        reveal_strlit("ABCDEFGHIJKLMNOPQRSTUVWXYZabcdefghijklmnopqrstuvwxyz0123456789+/");
    }
    assert(alpha@.len() == 64);
    let mut result = String::new();
    let n = input.len();
    let mut i: usize = 0;
    assert(input@.skip(0) =~= input@);
    assert(result@ + encode_spec(input@) =~= encode_spec(input@));
    while i < n
        invariant
            i <= n,
            n == input@.len(),
            alpha@ == alphabet(),
            alpha@.len() == 64,
            result@ + encode_spec(input@.skip(i as int)) == encode_spec(input@),
        decreases n - i,
    {
        let rest = n - i;
        let b1 = input[i];
        let b2: u8 = if rest > 1 { input[i + 1] } else { 0 };
        let b3: u8 = if rest > 2 { input[i + 2] } else { 0 };
        let combined: u32 = (b1 as u32) * 65536 + (b2 as u32) * 256 + (b3 as u32);
        let ghost before = result@;
        let ghost len: nat = if rest < 3 { rest as nat } else { 3 };
        let ghost s = input@.skip(i as int);
        assert(s.len() == rest);
        assert(s[0] == b1);
        assert(rest > 1 ==> s[1] == b2);
        assert(rest > 2 ==> s[2] == b3);
        let q0 = alpha[((combined / 262144) % 64) as usize];
        let q1 = alpha[((combined / 4096) % 64) as usize];
        let q2 = if rest > 1 { alpha[((combined / 64) % 64) as usize] } else { '=' };
        let q3 = if rest > 2 { alpha[(combined % 64) as usize] } else { '=' };
        push_char(&mut result, q0);
        push_char(&mut result, q1);
        push_char(&mut result, q2);
        push_char(&mut result, q3);
        let ghost q = quad(b1, b2, b3, len);
        assert(seq![q0, q1, q2, q3] =~= q);
        if rest >= 3 {
            assert(s.skip(3) =~= input@.skip(i + 3));
            assert(encode_spec(s) == q + encode_spec(s.skip(3)));
            assert(result@ =~= before + q);
            i = i + 3;
        } else {
            assert(encode_spec(s) == q);
            assert(input@.skip(n as int) =~= Seq::<u8>::empty());
            assert(result@ =~= before + q);
            i = n;
        }
        assert(result@ + encode_spec(input@.skip(i as int)) =~= encode_spec(input@));
    }
    assert(input@.skip(n as int) =~= Seq::<u8>::empty());
    assert(result@ =~= encode_spec(input@));
    result
}

/// The encoding has four characters for every started group of three
/// bytes, so it is longer than any non-empty input.
pub proof fn law_encode_length(s: Seq<u8>)
    ensures
        encode_spec(s).len() == 4 * ((s.len() + 2) / 3),
        s.len() > 0 ==> encode_spec(s).len() > s.len(),
    decreases s.len(),
{
    if s.len() >= 3 {
        law_encode_length(s.skip(3));
    }
}

} // verus!
