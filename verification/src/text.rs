use vstd::prelude::*;

verus! {

/// Appends one character to a string.
///
/// Calls `String::push` of the standard library. The contract claims what its
/// documentation says: the character is added at the end and nothing else
/// changes.
#[verifier::external_body]
pub(crate) fn push_char(s: &mut String, c: char)
    ensures
        final(s)@ == old(s)@.push(c),
{
    s.push(c)
}

/// The characters of `s`, in order.
pub fn chars_of(s: &str) -> (v: Vec<char>)
    ensures
        v@ == s@,
{
    let mut v: Vec<char> = Vec::new();
    for c in it: s.chars()
        invariant
            it.seq() == s@,
            v@ == s@.take(it.index() as int),
    {
        v.push(c);
    }
    assert(s@.take(s@.len() as int) == s@);
    v
}

/// The decimal digits of `n`.
pub open spec fn decimal(n: nat) -> Seq<char>
    decreases n,
{
    if n < 10 {
        seq![decimal_digit(n)]
    } else {
        decimal(n / 10).push(decimal_digit(n % 10))
    }
}

/// The character of the digit `d`.
pub open spec fn decimal_digit(d: nat) -> char {
    ((48 + d) as u8) as char
}

/// The decimal digits of `n` as a text.
pub fn decimal_text(n: usize) -> (s: String)
    ensures
        s@ == decimal(n as nat),
    decreases n,
{
    let d: u8 = (n % 10) as u8;
    let c = (48 + d) as char;
    if n < 10 {
        let mut s = String::new();
        push_char(&mut s, c);
        assert(s@ =~= seq![c]);
        s
    } else {
        let mut s = decimal_text(n / 10);
        push_char(&mut s, c);
        s
    }
}

/// Whether a text holds no line feed.
pub open spec fn one_line(s: Seq<char>) -> bool {
    forall|i: int| 0 <= i < s.len() ==> s[i] != '\n'
}

/// Whether `s` holds a line feed.
pub fn holds_line_feed(s: &str) -> (b: bool)
    ensures
        b == !one_line(s@),
{
    let mut found = false;
    for c in it: s.chars()
        invariant
            it.seq() == s@,
            found == !one_line(s@.take(it.index() as int)),
    {
        proof {
            let i = it.index() as int;
            let before = s@.take(i);
            let after = s@.take(i + 1);
            assert(after[i] == c);
            assert forall|j: int| 0 <= j < before.len() implies before[j] == after[j] by {}
            if !one_line(before) {
                let j = choose|j: int| 0 <= j < before.len() && before[j] == '\n';
                assert(after[j] == '\n');
            }
        }
        if c == '\n' {
            found = true;
        }
    }
    assert(s@.take(s@.len() as int) =~= s@);
    found
}

} // verus!
