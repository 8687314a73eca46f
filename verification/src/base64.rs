use vstd::prelude::*;
use crate::text::push_char;
use crate::vlq::{base64_char, base64_char_in_alphabet, digit, in_alphabet};

verus! {

/// The base64 text of some bytes: four characters for each three bytes, the
/// last group filled up with `=`.
pub open spec fn base64_text(bytes: Seq<u8>) -> Seq<char>
    decreases bytes.len(),
{
    if bytes.len() == 0 {
        Seq::empty()
    } else if bytes.len() == 1 {
        seq![base64_char(bytes[0] as int / 4), base64_char((bytes[0] as int % 4) * 16), '=', '=']
    } else if bytes.len() == 2 {
        seq![
            base64_char(bytes[0] as int / 4),
            base64_char((bytes[0] as int % 4) * 16 + bytes[1] as int / 16),
            base64_char((bytes[1] as int % 16) * 4),
            '=',
        ]
    } else {
        seq![
            base64_char(bytes[0] as int / 4),
            base64_char((bytes[0] as int % 4) * 16 + bytes[1] as int / 16),
            base64_char((bytes[1] as int % 16) * 4 + bytes[2] as int / 64),
            base64_char(bytes[2] as int % 64),
        ] + base64_text(bytes.skip(3))
    }
}

/// A base64 text holds characters of the alphabet and `=` only.
pub proof fn base64_text_shape(bytes: Seq<u8>)
    ensures
        forall|i: int|
            0 <= i < base64_text(bytes).len() ==> in_alphabet(#[trigger] base64_text(bytes)[i])
                || base64_text(bytes)[i] == '=',
    decreases bytes.len(),
{
    let t = base64_text(bytes);
    if bytes.len() == 0 {
    } else if bytes.len() == 1 {
        base64_char_in_alphabet(bytes[0] as int / 4);
        base64_char_in_alphabet((bytes[0] as int % 4) * 16);
    } else if bytes.len() == 2 {
        base64_char_in_alphabet(bytes[0] as int / 4);
        base64_char_in_alphabet((bytes[0] as int % 4) * 16 + bytes[1] as int / 16);
        base64_char_in_alphabet((bytes[1] as int % 16) * 4);
    } else {
        base64_char_in_alphabet(bytes[0] as int / 4);
        base64_char_in_alphabet((bytes[0] as int % 4) * 16 + bytes[1] as int / 16);
        base64_char_in_alphabet((bytes[1] as int % 16) * 4 + bytes[2] as int / 64);
        base64_char_in_alphabet(bytes[2] as int % 64);
        base64_text_shape(bytes.skip(3));
        let rest = base64_text(bytes.skip(3));
        assert forall|i: int| 0 <= i < t.len() implies in_alphabet(#[trigger] t[i]) || t[i]
            == '=' by {
            if i >= 4 {
                assert(t[i] == rest[i - 4]);
            }
        }
    }
}

/// The base64 text of `bytes`.
pub fn base64_encode(bytes: &[u8]) -> (out: String)
    ensures
        out@ == base64_text(bytes@),
{
    let mut out = String::new();
    let n = bytes.len();
    let mut i: usize = 0;
    assert(bytes@.skip(0) =~= bytes@);
    while n - i >= 3
        invariant
            i <= n,
            n == bytes@.len(),
            out@ + base64_text(bytes@.skip(i as int)) == base64_text(bytes@),
        decreases n - i,
    {
        let a = bytes[i];
        let b = bytes[i + 1];
        let c = bytes[i + 2];
        let ghost before = out@;
        let ghost rest = bytes@.skip(i as int);
        proof {
            assert(rest[0] == a && rest[1] == b && rest[2] == c);
            assert(rest.skip(3) =~= bytes@.skip(i + 3));
        }
        push_char(&mut out, digit(a / 4));
        push_char(&mut out, digit((a % 4) * 16 + b / 16));
        push_char(&mut out, digit((b % 16) * 4 + c / 64));
        push_char(&mut out, digit(c % 64));
        assert(out@ + base64_text(bytes@.skip(i + 3)) =~= before + base64_text(rest));
        i += 3;
    }
    let ghost before = out@;
    let ghost rest = bytes@.skip(i as int);
    if n - i == 1 {
        let a = bytes[i];
        assert(rest[0] == a);
        push_char(&mut out, digit(a / 4));
        push_char(&mut out, digit((a % 4) * 16));
        push_char(&mut out, '=');
        push_char(&mut out, '=');
        assert(out@ =~= before + base64_text(rest));
    } else if n - i == 2 {
        let a = bytes[i];
        let b = bytes[i + 1];
        assert(rest[0] == a && rest[1] == b);
        push_char(&mut out, digit(a / 4));
        push_char(&mut out, digit((a % 4) * 16 + b / 16));
        push_char(&mut out, digit((b % 16) * 4));
        push_char(&mut out, '=');
        assert(out@ =~= before + base64_text(rest));
    } else {
        assert(out@ =~= before + base64_text(rest));
    }
    out
}

} // verus!
