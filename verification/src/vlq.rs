use vstd::prelude::*;
use crate::text::push_char;

verus! {

/// The unsigned number that stands for `n`: twice its magnitude, plus one where
/// `n` is negative.
pub open spec fn zigzag(n: int) -> int {
    if n < 0 {
        (-n) * 2 + 1
    } else {
        n * 2
    }
}

/// The signed number that `u` stands for.
pub open spec fn unzigzag(u: int) -> int {
    if u % 2 == 1 {
        -(u / 2)
    } else {
        u / 2
    }
}

/// The character of the base64 alphabet for the six-bit value `d`.
pub open spec fn base64_char(d: int) -> char {
    if d < 26 {
        ((65 + d) as u8) as char
    } else if d < 52 {
        ((71 + d) as u8) as char
    } else if d < 62 {
        ((d - 4) as u8) as char
    } else if d == 62 {
        '+'
    } else {
        '/'
    }
}

/// The six-bit value of a character of the base64 alphabet.
pub open spec fn base64_value(c: char) -> int {
    let k = c as int;
    if 65 <= k <= 90 {
        k - 65
    } else if 97 <= k <= 122 {
        k - 71
    } else if 48 <= k <= 57 {
        k + 4
    } else if c == '+' {
        62
    } else {
        63
    }
}

/// The characters for the unsigned number `u`: five bits a character, least
/// significant first, each but the last with the continuation bit set.
pub open spec fn vlq_units(u: int) -> Seq<char>
    decreases u,
{
    if u < 32 {
        seq![base64_char(u)]
    } else {
        seq![base64_char(32 + u % 32)] + vlq_units(u / 32)
    }
}

/// The base64 VLQ text of the signed number `n`.
pub open spec fn vlq_encode(n: int) -> Seq<char> {
    vlq_units(zigzag(n))
}

/// The unsigned number that the first VLQ group of `s` holds.
pub open spec fn vlq_units_value(s: Seq<char>) -> int
    decreases s.len(),
{
    if s.len() == 0 {
        0
    } else {
        let v = base64_value(s[0]);
        if v < 32 {
            v
        } else {
            (v - 32) + 32 * vlq_units_value(s.drop_first())
        }
    }
}

/// The signed number that the first VLQ group of `s` holds.
pub open spec fn vlq_decode(s: Seq<char>) -> int {
    unzigzag(vlq_units_value(s))
}

/// Every value of six bits is the value of its own character.
pub proof fn base64_value_of_char(d: int)
    requires
        0 <= d < 64,
    ensures
        base64_value(base64_char(d)) == d,
{
    if d < 26 {
        assert(((65 + d) as u8) as char as int == 65 + d);
    } else if d < 52 {
        assert(((71 + d) as u8) as char as int == 71 + d);
    } else if d < 62 {
        assert(((d - 4) as u8) as char as int == d - 4);
    } else if d == 62 {
        assert('+' as int == 43);
    } else {
        assert('/' as int == 47);
    }
}

/// Reading back the characters written for an unsigned number gives the number.
pub proof fn vlq_units_round_trip(u: int)
    requires
        0 <= u,
    ensures
        vlq_units_value(vlq_units(u)) == u,
    decreases u,
{
    if u < 32 {
        base64_value_of_char(u);
        assert(vlq_units(u)[0] == base64_char(u));
    } else {
        let rest = vlq_units(u / 32);
        let s = vlq_units(u);
        base64_value_of_char(32 + u % 32);
        assert(s[0] == base64_char(32 + u % 32));
        assert(s.drop_first() =~= rest);
        vlq_units_round_trip(u / 32);
    }
}

/// Decoding the encoding of a number gives the number back.
pub proof fn vlq_round_trip(n: int)
    ensures
        vlq_decode(vlq_encode(n)) == n,
{
    vlq_units_round_trip(zigzag(n));
}

/// An encoding is never empty, and holds only characters of the alphabet, none
/// of which separates segments or lines of a mapping.
pub proof fn vlq_units_shape(u: int)
    requires
        0 <= u,
    ensures
        vlq_units(u).len() >= 1,
        forall|i: int| 0 <= i < vlq_units(u).len() ==> vlq_units(u)[i] != ';' && vlq_units(u)[i] != ',',
    decreases u,
{
    if u < 32 {
        base64_shape(u);
    } else {
        base64_shape(32 + u % 32);
        vlq_units_shape(u / 32);
        let s = vlq_units(u);
        let rest = vlq_units(u / 32);
        assert forall|i: int| 0 <= i < s.len() implies s[i] != ';' && s[i] != ',' by {
            if i > 0 {
                assert(s[i] == rest[i - 1]);
            }
        }
    }
}

/// Whether a character belongs to the base64 alphabet.
pub open spec fn in_alphabet(c: char) -> bool {
    let k = c as int;
    65 <= k <= 90 || 97 <= k <= 122 || 48 <= k <= 57 || c == '+' || c == '/'
}

/// The character for a value of six bits belongs to the alphabet.
pub proof fn base64_char_in_alphabet(d: int)
    requires
        0 <= d < 64,
    ensures
        in_alphabet(base64_char(d)),
{
    if d < 26 {
        assert(((65 + d) as u8) as char as int == 65 + d);
    } else if d < 52 {
        assert(((71 + d) as u8) as char as int == 71 + d);
    } else if d < 62 {
        assert(((d - 4) as u8) as char as int == d - 4);
    } else {
    }
}

/// No character of the alphabet is a semicolon or a comma.
pub proof fn base64_shape(d: int)
    requires
        0 <= d < 64,
    ensures
        base64_char(d) != ';',
        base64_char(d) != ',',
{
    base64_char_in_alphabet(d);
    assert(';' as int == 59);
    assert(',' as int == 44);
    assert('+' as int == 43);
    assert('/' as int == 47);
}

/// The character of the alphabet for `d`.
pub fn digit(d: u8) -> (c: char)
    requires
        d < 64,
    ensures
        c == base64_char(d as int),
{
    if d < 26 {
        (65 + d) as char
    } else if d < 52 {
        (71 + d) as char
    } else if d < 62 {
        (d - 4) as char
    } else if d == 62 {
        '+'
    } else {
        '/'
    }
}

/// An encoder of signed numbers as base64 VLQ text.
pub struct Vlq {}

impl Vlq {
    /// An encoder.
    pub fn new() -> (v: Vlq) {
        Vlq {  }
    }

    /// The base64 VLQ text of `n`.
    pub fn enc(&mut self, n: i32) -> (s: String)
        ensures
            s@ == vlq_encode(n as int),
    {
        self.enc_wide(n as i128)
    }

    /// The base64 VLQ text of a number of up to a hundred bits.
    pub fn enc_wide(&mut self, n: i128) -> (s: String)
        requires
            -0x10_0000_0000_0000_0000_0000_0000 < n < 0x10_0000_0000_0000_0000_0000_0000,
        ensures
            s@ == vlq_encode(n as int),
    {
        let mut u: u128 = if n < 0 {
            ((-n) * 2 + 1) as u128
        } else {
            (n * 2) as u128
        };
        let mut s = String::new();
        while u >= 32
            invariant
                s@ + vlq_units(u as int) == vlq_encode(n as int),
            decreases u,
        {
            let d: u8 = (32 + u % 32) as u8;
            let ghost before = s@;
            push_char(&mut s, digit(d));
            proof {
                let units = vlq_units(u as int);
                assert(units =~= seq![base64_char(32 + (u as int) % 32)] + vlq_units((u / 32) as int));
                assert(s@ + vlq_units((u / 32) as int) =~= before + units);
            }
            u = u / 32;
        }
        let d: u8 = u as u8;
        push_char(&mut s, digit(d));
        s
    }
}

} // verus!
