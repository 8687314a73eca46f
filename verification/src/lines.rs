use vstd::prelude::*;

verus! {

/// How many times the character `c` stands in `s`.
pub open spec fn count_of(s: Seq<char>, c: char) -> nat
    decreases s.len(),
{
    if s.len() == 0 {
        0
    } else {
        count_of(s.drop_last(), c) + if s.last() == c {
            1nat
        } else {
            0nat
        }
    }
}

/// How many line feeds `s` holds.
pub open spec fn line_feeds(s: Seq<char>) -> nat {
    count_of(s, '\n')
}

/// How many lines `s` has: one more than its line feeds, so that a carriage
/// return before a line feed adds nothing and the empty text has one line.
pub open spec fn line_count(s: Seq<char>) -> nat {
    line_feeds(s) + 1
}

/// A text that ends in a line feed has one line more than the same text
/// without that line feed.
pub proof fn trailing_line_feed_adds_a_line(s: Seq<char>)
    requires
        s.len() > 0,
        s.last() == '\n',
    ensures
        line_count(s) == line_count(s.drop_last()) + 1,
{
}

/// The counts of a character in two texts, one after the other, add up.
pub proof fn count_of_concat(a: Seq<char>, b: Seq<char>, c: char)
    ensures
        count_of(a + b, c) == count_of(a, c) + count_of(b, c),
    decreases b.len(),
{
    if b.len() == 0 {
        assert(a + b =~= a);
    } else {
        assert((a + b).drop_last() =~= a + b.drop_last());
        count_of_concat(a, b.drop_last(), c);
    }
}

/// A text in which a character does not stand holds it no times.
pub proof fn count_of_absent(s: Seq<char>, c: char)
    requires
        forall|i: int| 0 <= i < s.len() ==> s[i] != c,
    ensures
        count_of(s, c) == 0,
    decreases s.len(),
{
    if s.len() > 0 {
        count_of_absent(s.drop_last(), c);
    }
}

/// The number of lines of `source`.
pub fn count_lines(source: &str) -> (n: usize)
    requires
        source@.len() < usize::MAX,
    ensures
        n == line_count(source@),
{
    let mut n: usize = 0;
    for c in it: source.chars()
        invariant
            it.seq() == source@,
            n == line_feeds(source@.take(it.index() as int)),
            n <= it.index(),
            source@.len() < usize::MAX,
    {
        proof {
            let i = it.index() as int;
            assert(source@.take(i + 1).drop_last() =~= source@.take(i));
        }
        if c == '\n' {
            n = n + 1;
        }
    }
    assert(source@.take(source@.len() as int) =~= source@);
    n + 1
}

} // verus!
